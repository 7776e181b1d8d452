//! A peer-to-peer node transport: length-prefixed message frames, payload
//! digests, and the decision logic of the connection handler and the sender
//! of the broadcast/echo handshake.
use vstd::prelude::*;

pub mod network;
pub mod frame;
pub mod digest;
pub mod handler;
pub mod sender;
pub mod handshake;
pub mod config;

pub use network::{Msg, Network};

verus! {

} // verus!
