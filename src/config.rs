//! The node's configuration, built from the text values the process is given.
use vstd::prelude::*;

verus! {

/// The value of a string of ASCII decimal digits.
pub open spec fn digits_value(s: Seq<char>) -> nat
    decreases s.len(),
{
    if s.len() == 0 {
        0
    } else {
        digits_value(s.drop_last()) * 10 + ((s.last() as u32 - '0' as u32) as nat)
    }
}

/// `s` is a non-empty string of ASCII decimal digits.
pub open spec fn all_digits(s: Seq<char>) -> bool {
    s.len() > 0 && forall|i: int| 0 <= i < s.len() ==> '0' <= #[trigger] s[i] && s[i] <= '9'
}

/// The unsigned 32-bit number that `s` writes in decimal, with an optional
/// leading `+`, if it fits.
pub open spec fn decimal_u32(s: Seq<char>) -> Option<u32> {
    let d = if s.len() > 0 && s[0] == '+' {
        s.skip(1)
    } else {
        s
    };
    if all_digits(d) && digits_value(d) <= u32::MAX {
        Some(digits_value(d) as u32)
    } else {
        None
    }
}

/// Relies on `str::parse::<u32>`: an optional `+` and then one or more ASCII
/// digits whose value fits in 32 bits; anything else is an error.
#[verifier::external_body]
fn parse_u32(s: &str) -> (r: Option<u32>)
    ensures
        r == decimal_u32(s@),
{
    s.parse::<u32>().ok()
}

/// Why a configuration was refused.
#[derive(Debug, Clone, Copy, PartialEq, Eq, Structural)]
pub enum ConfigError {
    /// The node id is no unsigned 32-bit decimal number.
    BadNodeId,
}

/// The node's id, the address it listens on and the peer it sends to.
#[derive(Debug)]
pub struct Config {
    pub node_id: u32,
    pub listen_addr: String,
    pub peer: String,
}

impl Config {
    /// The configuration with the node id written in decimal in `node_id`.
    pub fn from_values(node_id: &str, listen_addr: String, peer: String) -> (r: Result<
        Config,
        ConfigError,
    >)
        ensures
            decimal_u32(node_id@) is None ==> r == Err::<Config, ConfigError>(
                ConfigError::BadNodeId,
            ),
            decimal_u32(node_id@) matches Some(id) ==> (r matches Ok(c) && c.node_id == id
                && c.listen_addr@ == listen_addr@ && c.peer@ == peer@),
    {
        match parse_u32(node_id) {
            Some(id) => Ok(Config { node_id: id, listen_addr, peer }),
            None => Err(ConfigError::BadNodeId),
        }
    }
}

} // verus!
