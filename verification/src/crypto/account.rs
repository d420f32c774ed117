//! Accounts: an address and its balance.
use vstd::prelude::*;

verus! {

/// An account: an address and its current balance.
#[derive(Debug, Clone)]
pub struct Account {
    /// The address associated with this account
    pub address: String,
    /// The current balance of the account
    pub balance: u64,
}

impl Account {
    /// Create a new account with the given address and initial balance.
    pub fn new(address: String, initial_balance: u64) -> (a: Self)
        ensures
            a.address@ == address@,
            a.balance == initial_balance,
    {
        Self { address, balance: initial_balance }
    }

    /// Get the account's address.
    pub fn address(&self) -> (s: &str)
        ensures
            s@ == self.address@,
    {
        self.address.as_str()
    }

    /// Get the current balance.
    pub fn balance(&self) -> (b: u64)
        ensures
            b == self.balance,
    {
        self.balance
    }
}

} // verus!
