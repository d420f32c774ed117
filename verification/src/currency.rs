//! Balances of addresses and the transfers between them.
use vstd::prelude::*;
use crate::clock::{clock_reading, epoch_secs, read_clock};
use crate::crypto::address::{address_error, address_public_key, Address};
use crate::crypto::keys::base58_decoder_safe;
use crate::crypto::transaction::Transaction;
use crate::string_map::StringMap;
use crate::text::push_str;

verus! {

/// Errors of the currency engine.
#[derive(Debug)]
pub enum CurrencyError {
    InvalidAmount(String),
    InsufficientBalance,
    TransactionError(String),
}

/// An amount of currency.
#[derive(Debug, Clone, Copy)]
pub struct Amount(pub u64);

/// An address's balance and when it last changed.
#[derive(Debug, Clone, Copy)]
pub struct Balance {
    pub amount: Amount,
    pub last_updated: u64,
}

impl Balance {
    /// A balance holding `amount`, never updated.
    pub fn new(amount: Amount) -> (b: Self)
        ensures
            b.amount.0 == amount.0,
            b.last_updated == 0,
    {
        Balance { amount, last_updated: 0 }
    }
}

/// The amount held at `address`: nothing when it has no balance yet.
pub open spec fn amount_of(balances: Map<Seq<char>, Balance>, address: Seq<char>) -> u64 {
    if balances.dom().contains(address) { balances[address].amount.0 } else { 0 }
}

/// The balances of addresses, keyed by their public address text.
pub struct BalanceManager {
    balances: StringMap<Balance>,
}

impl View for BalanceManager {
    type V = Map<Seq<char>, Balance>;

    closed spec fn view(&self) -> Map<Seq<char>, Balance> {
        self.balances@
    }
}

impl BalanceManager {
    /// Well-formedness of the balance table.
    pub closed spec fn wf(self) -> bool {
        self.balances.wf()
    }

    /// A manager with no balances.
    pub fn new() -> (m: Self)
        ensures
            m.wf(),
            m@ == Map::<Seq<char>, Balance>::empty(),
    {
        BalanceManager { balances: StringMap::new() }
    }

    /// The balance of `address`: a zero balance when it has none yet.
    pub fn get_balance(&self, address: &Address) -> (b: Balance)
        requires
            self.wf(),
        ensures
            b.amount.0 == amount_of(self@, address.text()),
            self@.dom().contains(address.text()) ==> b == self@[address.text()],
    {
        match self.balances.get(address.get_public_address()) {
            Some(b) => *b,
            None => Balance::new(Amount(0)),
        }
    }

    /// Sets the amount held at `address` at time `now`.
    pub fn update_balance_at(&mut self, address: &Address, amount: Amount, now: u64) -> (r: Result<(), CurrencyError>)
        requires
            old(self).wf(),
        ensures
            final(self).wf(),
            r is Ok,
            final(self)@ == old(self)@.insert(address.text(), Balance { amount, last_updated: now }),
    {
        let key = address.get_public_address().to_owned();
        self.balances.insert(key, Balance { amount, last_updated: now });
        Ok(())
    }

    /// Sets the amount held at `address`, stamped with the current time (a clock before the Unix
    /// epoch counts as 0).
    pub fn update_balance(&mut self, address: &Address, amount: Amount) -> (r: Result<(), CurrencyError>)
        requires
            old(self).wf(),
        ensures
            final(self).wf(),
            r is Ok,
            final(self)@.dom() == old(self)@.dom().insert(address.text()),
            final(self)@[address.text()].amount.0 == amount.0,
            exists|t: i64| clock_reading(t) && final(self)@[address.text()].last_updated == epoch_secs(t),
            forall|k: Seq<char>| k != address.text() && #[trigger] old(self)@.dom().contains(k)
                ==> final(self)@[k] == old(self)@[k],
    {
        let now = read_clock();
        let stamp: u64 = if now < 0 { 0 } else { now as u64 };
        let r = self.update_balance_at(address, amount, stamp);
        assert(final(self)@.dom() =~= old(self)@.dom().insert(address.text()));
        assert(clock_reading(now) && final(self)@[address.text()].last_updated == epoch_secs(now));
        r
    }
}

/// Moves the first output's amount from a transaction's sender to its first recipient.
pub struct TransactionProcessor {
    balance_manager: BalanceManager,
}

/// The text of an address error, after a prefix.
fn address_error_text(prefix: &str, error: &str) -> (s: String)
    ensures
        s@ == prefix@ + error@,
{
    let mut s = String::new();
    push_str(&mut s, prefix);
    push_str(&mut s, error);
    assert(s@ =~= prefix@ + error@);
    s
}

impl TransactionProcessor {
    /// Well-formedness of the balances.
    pub closed spec fn wf(self) -> bool {
        self.balance_manager.wf()
    }

    /// The balances.
    pub closed spec fn balances(self) -> Map<Seq<char>, Balance> {
        self.balance_manager@
    }

    /// A processor working on `balance_manager`'s balances.
    pub fn new(balance_manager: BalanceManager) -> (p: Self)
        requires
            balance_manager.wf(),
        ensures
            p.wf(),
            p.balances() == balance_manager@,
    {
        Self { balance_manager }
    }

    /// The balances, for reading.
    pub fn balance_manager(&self) -> (m: &BalanceManager)
        requires
            self.wf(),
        ensures
            m.wf(),
            m@ == self.balances(),
    {
        &self.balance_manager
    }

    /// Moves the first output's amount from the sender to the first output's recipient.
    /// Both must be valid public addresses, and the sender must hold the amount; then the sender
    /// loses it and the recipient gains it (an address paying itself keeps its amount).
    pub fn process_transaction(&mut self, transaction: &Transaction) -> (r: Result<(), CurrencyError>)
        requires
            old(self).wf(),
            transaction.outputs@.len() > 0,
            base58_decoder_safe(transaction.from@),
            base58_decoder_safe(transaction.outputs@[0].to@),
            transaction.from@ != transaction.outputs@[0].to@ ==> amount_of(old(self).balances(),
                transaction.outputs@[0].to@) + transaction.outputs@[0].amount <= u64::MAX,
        ensures
            final(self).wf(),
            ({
                let from = transaction.from@;
                let to = transaction.outputs@[0].to@;
                let amount = transaction.outputs@[0].amount;
                let before = old(self).balances();
                let after = final(self).balances();
                if address_public_key(from) is None {
                    &&& r matches Err(CurrencyError::TransactionError(m))
                    &&& m@ == "Invalid sender address: "@ + address_error(from)
                    &&& after == before
                } else if address_public_key(to) is None {
                    &&& r matches Err(CurrencyError::TransactionError(m))
                    &&& m@ == "Invalid recipient address: "@ + address_error(to)
                    &&& after == before
                } else if amount_of(before, from) < amount {
                    &&& r matches Err(CurrencyError::InsufficientBalance)
                    &&& after == before
                } else {
                    &&& r is Ok
                    &&& after.dom() == before.dom().insert(from).insert(to)
                    &&& from != to ==> amount_of(after, from) == amount_of(before, from) - amount
                    &&& from != to ==> amount_of(after, to) == amount_of(before, to) + amount
                    &&& from == to ==> amount_of(after, from) == amount_of(before, from)
                    &&& forall|k: Seq<char>| k != from && k != to && #[trigger] before.dom().contains(k)
                        ==> after[k] == before[k]
                }
            }),
    {
        let sender_address = match Address::from_public_address(transaction.from()) {
            Ok(a) => a,
            Err(e) => {
                return Err(CurrencyError::TransactionError(address_error_text("Invalid sender address: ", e)));
            },
        };
        let recipient_address = match Address::from_public_address(transaction.outputs()[0].to()) {
            Ok(a) => a,
            Err(e) => {
                return Err(CurrencyError::TransactionError(address_error_text("Invalid recipient address: ", e)));
            },
        };
        let amount = transaction.outputs()[0].amount();
        let sender_balance = self.balance_manager.get_balance(&sender_address);
        if sender_balance.amount.0 < amount {
            return Err(CurrencyError::InsufficientBalance);
        }
        let ghost before = self.balance_manager@;
        let _ = self.balance_manager.update_balance(&sender_address, Amount(sender_balance.amount.0 - amount));
        let ghost mid = self.balance_manager@;
        let recipient_balance = self.balance_manager.get_balance(&recipient_address);
        let _ = self.balance_manager.update_balance(&recipient_address, Amount(recipient_balance.amount.0 + amount));
        proof {
            let after = self.balance_manager@;
            assert(after.dom() =~= before.dom().insert(transaction.from@).insert(transaction.outputs@[0].to@));
            assert forall|k: Seq<char>| k != transaction.from@ && k != transaction.outputs@[0].to@
                && #[trigger] before.dom().contains(k) implies after[k] == before[k] by {
                assert(mid.dom().contains(k));
            }
        }
        Ok(())
    }
}

/// A transfer between two distinct addresses neither creates nor destroys currency: what the
/// sender loses the recipient gains.
pub proof fn lemma_transfer_conserves(
    before: Map<Seq<char>, Balance>,
    after: Map<Seq<char>, Balance>,
    from: Seq<char>,
    to: Seq<char>,
    amount: u64,
)
    requires
        from != to,
        amount_of(after, from) == amount_of(before, from) - amount,
        amount_of(after, to) == amount_of(before, to) + amount,
    ensures
        amount_of(after, from) + amount_of(after, to) == amount_of(before, from) + amount_of(before, to),
{
}

} // verus!
