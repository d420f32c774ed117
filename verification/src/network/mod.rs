//! Peers of the network: who they are, how healthy they are, and how the peer table changes.
pub mod address;
pub mod dns;
pub mod health;
pub mod interfaces;
pub mod peer;
