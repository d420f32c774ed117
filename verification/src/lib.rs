//! A peer-to-peer node: peers, transactions, balances and the text they exchange.
pub mod clock;
pub mod config;
pub mod crypto;
pub mod currency;
pub mod database;
pub mod message;
pub mod ddns;
pub mod network;
pub mod safe_map;
pub mod server;
pub mod string_map;
pub mod text;
pub mod trace;
pub mod tui;
