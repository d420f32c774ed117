//! Terminal presentation.
pub mod color;
