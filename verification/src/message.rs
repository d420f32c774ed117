//! Messages exchanged between nodes.
use vstd::prelude::*;

verus! {

/// A message between nodes.
#[derive(Debug, Clone)]
pub enum Message {
    /// A chat message.
    Chat { content: String },
    /// The announcement of a new peer.
    NewPeer { addr: String },
}

/// A peer's periodic sign of life, with the peers it knows.
#[derive(Debug, Clone)]
pub struct HeartbeatMessage {
    pub address: String,
    pub known_peers: Vec<String>,
}

} // verus!
