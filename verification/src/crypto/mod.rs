//! Accounts, addresses, and signed transactions.
pub mod account;
pub mod address;
pub mod hex;
pub mod keys;
pub mod output;
pub mod process_transaction;
pub mod transaction;
