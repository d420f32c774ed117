//! Endpoints for health, messages and peers.
pub mod health;
pub mod messages;
pub mod peers;
