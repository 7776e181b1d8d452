//! The protocol messages and the node's identity.
use vstd::prelude::*;

verus! {

/// A protocol message.
#[derive(Debug, Clone, PartialEq, Eq)]
pub enum Msg {
    /// An identity announcement.
    Hello { node_id: u32 },
    /// A broadcast proposal for a round.
    RbcSend { round: u64, payload: Vec<u8> },
    /// An attestation that the payload of `round` hashed to `hash`.
    RbcEcho { round: u64, hash: [u8; 32] },
}

/// The node's identity: its id and the address it listens on.
pub struct Network {
    pub node_id: u32,
    pub listen_addr: String,
}

impl Network {
    pub fn new(node_id: u32, listen_addr: String) -> (r: Self)
        ensures
            r.node_id == node_id,
            r.listen_addr@ == listen_addr@,
    {
        Network { node_id, listen_addr }
    }
}

} // verus!
