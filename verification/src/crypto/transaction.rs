//! Transactions: a sender, outputs, a time, a memo, and the sender's signature.
use vstd::prelude::*;
use vstd::utf8::encode_utf8;
use vstd::string::StrSliceExecFns;
use crate::clock::{clock_reading, epoch_secs, read_clock};
use crate::crypto::address::{address_public_key, signature_text_valid, Address};
use crate::crypto::hex::{lemma_signature_hex_round_trip, upper_hex};
use crate::crypto::keys::{
    base58_decoder_safe, ed25519_public_key, ed25519_signature, ed25519_verify_strict, is_base58_decodable,
};
use crate::text::{dec_nat, push_decimal_u64, push_str, str_eq};

verus! {

/// An output of a transaction: a recipient and an amount.
#[derive(Debug, Clone)]
pub struct Output {
    /// Recipient's address
    pub to: String,
    /// Amount to transfer
    pub amount: u64,
}

impl Output {
    /// An output paying `amount` to `to`.
    pub fn new(to: &str, amount: u64) -> (o: Self)
        ensures
            o.to@ == to@,
            o.amount == amount,
    {
        Self { to: to.to_owned(), amount }
    }

    /// The recipient.
    pub fn to(&self) -> (s: &str)
        ensures
            s@ == self.to@,
    {
        self.to.as_str()
    }

    /// The amount.
    pub fn amount(&self) -> (a: u64)
        ensures
            a == self.amount,
    {
        self.amount
    }
}

/// The sum of the amounts of `outputs`.
pub open spec fn total(outputs: Seq<Output>) -> int
    decreases outputs.len(),
{
    if outputs.len() == 0 {
        0
    } else {
        total(outputs.drop_last()) + outputs.last().amount
    }
}

/// An output as signed: "recipient:amount".
pub open spec fn output_text(o: Output) -> Seq<char> {
    o.to@ + seq![':'] + dec_nat(o.amount as nat)
}

/// The outputs as signed, separated by ','.
pub open spec fn outputs_text(outputs: Seq<Output>) -> Seq<char>
    decreases outputs.len(),
{
    if outputs.len() == 0 {
        Seq::empty()
    } else if outputs.len() == 1 {
        output_text(outputs[0])
    } else {
        outputs_text(outputs.drop_last()) + seq![','] + output_text(outputs.last())
    }
}

/// The memo as signed: empty when there is none.
pub open spec fn memo_text(memo: Option<String>) -> Seq<char> {
    match memo {
        Some(m) => m@,
        None => Seq::empty(),
    }
}

/// The data a transaction's signature covers: "from:outputs:timestamp:memo".
pub open spec fn signing_text(tx: Transaction) -> Seq<char> {
    tx.from@ + seq![':'] + outputs_text(tx.outputs@) + seq![':'] + dec_nat(tx.timestamp as nat)
        + seq![':'] + memo_text(tx.memo)
}

/// Whether a transaction carries a signature by the key its sender's address names.
pub open spec fn transaction_verifies(tx: Transaction) -> bool {
    match tx.signature {
        Some(sig) => base58_decoder_safe(tx.from@) && match address_public_key(tx.from@) {
            Some(pk) => signature_text_valid(pk, encode_utf8(signing_text(tx)), sig@),
            None => false,
        },
        None => false,
    }
}

/// A transfer from one address to one or more outputs.
#[derive(Debug, Clone)]
pub struct Transaction {
    /// Sender's address
    pub from: String,
    /// List of outputs (recipient and amount pairs)
    pub outputs: Vec<Output>,
    /// Unix timestamp when the transaction was created
    pub timestamp: u64,
    /// Optional message/memo
    pub memo: Option<String>,
    /// Transaction signature
    pub signature: Option<String>,
}

impl Transaction {
    /// A new unsigned transaction created at `timestamp`.
    pub fn with_timestamp(from: &str, outputs: Vec<Output>, memo: Option<String>, timestamp: u64) -> (tx: Self)
        ensures
            tx.from@ == from@,
            tx.outputs@ == outputs@,
            tx.memo == memo,
            tx.timestamp == timestamp,
            tx.signature is None,
    {
        Self { from: from.to_owned(), outputs, timestamp, memo, signature: None }
    }

    /// A new unsigned transaction created now (a clock before the Unix epoch counts as 0).
    pub fn new(from: &str, outputs: Vec<Output>, memo: Option<String>) -> (tx: Self)
        ensures
            tx.from@ == from@,
            tx.outputs@ == outputs@,
            tx.memo == memo,
            tx.signature is None,
            exists|t: i64| clock_reading(t) && tx.timestamp == epoch_secs(t),
    {
        let now = read_clock();
        let timestamp: u64 = if now < 0 { 0 } else { now as u64 };
        let tx = Self::with_timestamp(from, outputs, memo, timestamp);
        assert(clock_reading(now) && tx.timestamp == epoch_secs(now));
        tx
    }

    /// Get the total amount of the transaction.
    pub fn total_amount(&self) -> (t: u64)
        requires
            total(self.outputs@) <= u64::MAX,
        ensures
            t == total(self.outputs@),
    {
        let mut sum: u64 = 0;
        let mut i: usize = 0;
        while i < self.outputs.len()
            invariant
                i <= self.outputs@.len(),
                total(self.outputs@) <= u64::MAX,
                sum == total(self.outputs@.take(i as int)),
            decreases self.outputs@.len() - i,
        {
            proof {
                assert(self.outputs@.take(i + 1).drop_last() =~= self.outputs@.take(i as int));
                lemma_total_prefix(self.outputs@, i + 1);
            }
            sum = sum + self.outputs[i].amount;
            i = i + 1;
        }
        assert(self.outputs@.take(i as int) =~= self.outputs@);
        sum
    }

    /// Get the transaction data that will be signed.
    pub fn get_signing_data(&self) -> (s: String)
        ensures
            s@ == signing_text(*self),
    {
        let mut s = String::new();
        push_str(&mut s, self.from.as_str());
        s.push(':');
        let ghost head = self.from@ + seq![':'];
        assert(s@ =~= head + outputs_text(self.outputs@.take(0)));
        let mut i: usize = 0;
        while i < self.outputs.len()
            invariant
                i <= self.outputs@.len(),
                s@ == head + outputs_text(self.outputs@.take(i as int)),
            decreases self.outputs@.len() - i,
        {
            let ghost before = s@;
            if i > 0 {
                s.push(',');
            }
            push_str(&mut s, self.outputs[i].to.as_str());
            s.push(':');
            push_decimal_u64(&mut s, self.outputs[i].amount);
            proof {
                let pre = self.outputs@.take(i as int);
                let post = self.outputs@.take(i + 1);
                assert(post.drop_last() =~= pre);
                assert(post.last() == self.outputs@[i as int]);
                if i == 0 {
                    assert(outputs_text(pre) =~= Seq::<char>::empty());
                    assert(post.len() == 1);
                    assert(s@ =~= head + outputs_text(post));
                } else {
                    assert(s@ =~= head + outputs_text(post));
                }
            }
            i = i + 1;
        }
        assert(self.outputs@.take(i as int) =~= self.outputs@);
        s.push(':');
        push_decimal_u64(&mut s, self.timestamp);
        s.push(':');
        match &self.memo {
            Some(m) => push_str(&mut s, m.as_str()),
            None => {},
        }
        assert(s@ =~= signing_text(*self));
        s
    }

    /// Sign the transaction with the sender's address. A transaction is signed once, by the
    /// address it names as sender, and only an address that holds its secret key can sign.
    pub fn sign(&mut self, signer: &mut Address) -> (r: Result<(), &'static str>)
        ensures
            *final(signer) == *old(signer),
            old(self).signature is Some ==> r is Err && r->Err_0@ == "Transaction already signed"@
                && *final(self) == *old(self),
            old(self).signature is None && old(signer).text() != old(self).from@ ==> r is Err
                && r->Err_0@ == "Signer address doesn't match sender"@ && *final(self) == *old(self),
            old(self).signature is None && old(signer).text() == old(self).from@ && old(signer).secret() is None
                ==> r is Err && r->Err_0@ == "Cannot sign: address is public-only"@ && *final(self) == *old(self),
            old(self).signature is None && old(signer).text() == old(self).from@ && old(signer).secret() is Some
                ==> r is Ok && final(self).from == old(self).from && final(self).outputs == old(self).outputs
                && final(self).timestamp == old(self).timestamp && final(self).memo == old(self).memo
                && final(self).signature is Some
                && final(self).signature->Some_0@ == upper_hex(ed25519_signature(
                    old(signer).secret()->Some_0, encode_utf8(signing_text(*old(self))))),
    {
        if self.signature.is_some() {
            return Err("Transaction already signed");
        }
        if !str_eq(signer.get_public_address(), self.from.as_str()) {
            return Err("Signer address doesn't match sender");
        }
        let signing_data = self.get_signing_data();
        let signature = match signer.sign(signing_data.as_str()) {
            Ok(sig) => sig,
            Err(e) => return Err(e),
        };
        self.signature = Some(signature);
        Ok(())
    }

    /// Verify the transaction signature: it must be present and accepted under the public key
    /// that the sender's address names. A sender text of more than 132 base58 digits, which the
    /// base58 decoder cannot be given, is longer than any public address and names none.
    pub fn verify(&self) -> (ok: bool)
        ensures
            ok == transaction_verifies(*self),
    {
        match &self.signature {
            Some(signature) => {
                if !is_base58_decodable(self.from.as_str()) {
                    return false;
                }
                match Address::from_public_address(self.from.as_str()) {
                    Ok(from_address) => {
                        let signing_data = self.get_signing_data();
                        from_address.verify(signing_data.as_str(), signature.as_str())
                    },
                    Err(_) => false,
                }
            },
            None => false,
        }
    }

    /// The sender's address.
    pub fn from(&self) -> (s: &str)
        ensures
            s@ == self.from@,
    {
        self.from.as_str()
    }

    /// The outputs.
    pub fn outputs(&self) -> (o: &[Output])
        ensures
            o@ == self.outputs@,
    {
        self.outputs.as_slice()
    }

    /// The creation time.
    pub fn timestamp(&self) -> (t: u64)
        ensures
            t == self.timestamp,
    {
        self.timestamp
    }

    /// The memo, if any.
    pub fn memo(&self) -> (m: Option<&str>)
        ensures
            match m {
                Some(s) => self.memo is Some && s@ == self.memo->Some_0@,
                None => self.memo is None,
            },
    {
        match &self.memo {
            Some(s) => Some(s.as_str()),
            None => None,
        }
    }

    /// The signature, if any.
    pub fn signature(&self) -> (m: Option<&str>)
        ensures
            match m {
                Some(s) => self.signature is Some && s@ == self.signature->Some_0@,
                None => self.signature is None,
            },
    {
        match &self.signature {
            Some(s) => Some(s.as_str()),
            None => None,
        }
    }
}

/// A transaction signed by the key that its sender's address names verifies exactly when strict
/// verification accepts that key's own signature of the signed data.
pub proof fn lemma_signed_transaction_verifies(tx: Transaction, secret: Seq<u8>)
    requires
        base58_decoder_safe(tx.from@),
        address_public_key(tx.from@) == Some(ed25519_public_key(secret)),
        ed25519_signature(secret, encode_utf8(signing_text(tx))).len() == 64,
        tx.signature is Some,
        tx.signature->Some_0@ == upper_hex(ed25519_signature(secret, encode_utf8(signing_text(tx)))),
    ensures
        transaction_verifies(tx) == ed25519_verify_strict(
            ed25519_public_key(secret),
            encode_utf8(signing_text(tx)),
            ed25519_signature(secret, encode_utf8(signing_text(tx))),
        ),
{
    lemma_signature_hex_round_trip(ed25519_signature(secret, encode_utf8(signing_text(tx))));
}

/// A total is never negative.
pub proof fn lemma_total_nonneg(outputs: Seq<Output>)
    ensures
        total(outputs) >= 0,
    decreases outputs.len(),
{
    if outputs.len() > 0 {
        lemma_total_nonneg(outputs.drop_last());
    }
}

/// The total of a prefix grows by the next amount, and never exceeds the total of the whole.
pub proof fn lemma_total_prefix(outputs: Seq<Output>, k: int)
    requires
        0 <= k <= outputs.len(),
    ensures
        total(outputs.take(k)) <= total(outputs),
        k > 0 ==> total(outputs.take(k)) == total(outputs.take(k - 1)) + outputs[k - 1].amount,
    decreases outputs.len() - k,
{
    if k > 0 {
        assert(outputs.take(k).drop_last() =~= outputs.take(k - 1));
    }
    if k < outputs.len() {
        lemma_total_prefix(outputs, k + 1);
        assert(outputs.take(k + 1).drop_last() =~= outputs.take(k));
    } else {
        assert(outputs.take(k) =~= outputs);
    }
}

} // verus!
