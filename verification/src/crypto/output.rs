//! A transaction output: who receives how much.
pub use crate::crypto::transaction::Output;
