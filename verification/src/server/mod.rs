//! The HTTP interface of a node: what each endpoint decides.
pub mod api;
