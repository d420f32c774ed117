//! A processor's endorsement of a transaction, for which it takes a fee.
use vstd::prelude::*;
use vstd::utf8::encode_utf8;
use vstd::string::StrSliceExecFns;
use crate::clock::{clock_reading, epoch_secs, read_clock};
use crate::crypto::address::{address_public_key, signature_text_valid, Address};
use crate::crypto::hex::{lemma_signature_hex_round_trip, upper_hex};
use crate::crypto::keys::{
    base58_decoder_safe, ed25519_public_key, ed25519_signature, ed25519_verify_strict, is_base58_decodable,
};
use crate::crypto::transaction::{lemma_total_nonneg, signing_text, total, transaction_verifies, Transaction};
use crate::text::{dec_nat, push_decimal_u64, push_str, str_eq};

verus! {

/// The processor's fee, in percent of the transaction's total.
pub const PROCESSOR_FEE_PERCENTAGE: u64 = 10;

/// The data a processor's signature covers: "transaction data:processor:fee:timestamp".
pub open spec fn process_signing_text(p: ProcessTransaction) -> Seq<char> {
    signing_text(p.transaction) + seq![':'] + p.processor@ + seq![':'] + dec_nat(p.fee as nat)
        + seq![':'] + dec_nat(p.timestamp as nat)
}

/// Whether the original transaction verifies and the processor's signature is accepted under
/// the public key that the processor's address names.
pub open spec fn process_verifies(p: ProcessTransaction) -> bool {
    match p.signature {
        Some(sig) => transaction_verifies(p.transaction) && base58_decoder_safe(p.processor@)
            && match address_public_key(p.processor@) {
                Some(pk) => signature_text_valid(pk, encode_utf8(process_signing_text(p)), sig@),
                None => false,
            },
        None => false,
    }
}

/// A transaction taken on by a processor.
#[derive(Debug, Clone)]
pub struct ProcessTransaction {
    /// The original transaction
    pub transaction: Transaction,
    /// Address of the processor
    pub processor: String,
    /// Processor's fee (10% of total transaction amount)
    pub fee: u64,
    /// Unix timestamp when the process transaction was created
    pub timestamp: u64,
    /// Processor's signature
    pub signature: Option<String>,
}

impl ProcessTransaction {
    /// An unsigned process transaction created at `timestamp`; the fee is 10% of the total,
    /// rounded down.
    pub fn with_timestamp(transaction: Transaction, processor: &str, timestamp: u64) -> (p: Self)
        requires
            total(transaction.outputs@) * 10 <= u64::MAX,
        ensures
            p.transaction == transaction,
            p.processor@ == processor@,
            p.fee == total(transaction.outputs@) * 10 / 100,
            p.timestamp == timestamp,
            p.signature is None,
    {
        let fee = (transaction.total_amount() * PROCESSOR_FEE_PERCENTAGE) / 100;
        Self { transaction, processor: processor.to_owned(), fee, timestamp, signature: None }
    }

    /// An unsigned process transaction created now (a clock before the Unix epoch counts as 0).
    pub fn new(transaction: Transaction, processor: &str) -> (p: Self)
        requires
            total(transaction.outputs@) * 10 <= u64::MAX,
        ensures
            p.transaction == transaction,
            p.processor@ == processor@,
            p.fee == total(transaction.outputs@) * 10 / 100,
            p.signature is None,
            exists|t: i64| clock_reading(t) && p.timestamp == epoch_secs(t),
    {
        let now = read_clock();
        let timestamp: u64 = if now < 0 { 0 } else { now as u64 };
        let p = Self::with_timestamp(transaction, processor, timestamp);
        assert(clock_reading(now) && p.timestamp == epoch_secs(now));
        p
    }

    /// Get the process transaction data that will be signed.
    pub fn get_signing_data(&self) -> (s: String)
        ensures
            s@ == process_signing_text(*self),
    {
        let mut s = self.transaction.get_signing_data();
        s.push(':');
        push_str(&mut s, self.processor.as_str());
        s.push(':');
        push_decimal_u64(&mut s, self.fee);
        s.push(':');
        push_decimal_u64(&mut s, self.timestamp);
        assert(s@ =~= process_signing_text(*self));
        s
    }

    /// Sign with the processor's address: once, by the named processor, and only over an
    /// original transaction that verifies.
    pub fn sign(&mut self, processor: &mut Address) -> (r: Result<(), &'static str>)
        ensures
            *final(processor) == *old(processor),
            old(self).signature is Some ==> r is Err && r->Err_0@ == "Process transaction already signed"@
                && *final(self) == *old(self),
            old(self).signature is None && old(processor).text() != old(self).processor@ ==> r is Err
                && r->Err_0@ == "Signer address doesn't match processor"@ && *final(self) == *old(self),
            old(self).signature is None && old(processor).text() == old(self).processor@
                && !transaction_verifies(old(self).transaction) ==> r is Err
                && r->Err_0@ == "Original transaction signature is invalid"@ && *final(self) == *old(self),
            old(self).signature is None && old(processor).text() == old(self).processor@
                && transaction_verifies(old(self).transaction) && old(processor).secret() is None ==> r is Err
                && r->Err_0@ == "Cannot sign: address is public-only"@ && *final(self) == *old(self),
            old(self).signature is None && old(processor).text() == old(self).processor@
                && transaction_verifies(old(self).transaction) && old(processor).secret() is Some
                ==> r is Ok && final(self).transaction == old(self).transaction
                && final(self).processor == old(self).processor && final(self).fee == old(self).fee
                && final(self).timestamp == old(self).timestamp && final(self).signature is Some
                && final(self).signature->Some_0@ == upper_hex(ed25519_signature(
                    old(processor).secret()->Some_0, encode_utf8(process_signing_text(*old(self))))),
    {
        if self.signature.is_some() {
            return Err("Process transaction already signed");
        }
        if !str_eq(processor.get_public_address(), self.processor.as_str()) {
            return Err("Signer address doesn't match processor");
        }
        if !self.transaction.verify() {
            return Err("Original transaction signature is invalid");
        }
        let signing_data = self.get_signing_data();
        let signature = match processor.sign(signing_data.as_str()) {
            Ok(sig) => sig,
            Err(e) => return Err(e),
        };
        self.signature = Some(signature);
        Ok(())
    }

    /// Verify both the original transaction and the processor's signature. A processor text of
    /// more than 132 base58 digits, which the base58 decoder cannot be given, is longer than any
    /// public address and names none.
    pub fn verify(&self) -> (ok: bool)
        ensures
            ok == process_verifies(*self),
    {
        match &self.signature {
            Some(signature) => {
                if !self.transaction.verify() {
                    return false;
                }
                if !is_base58_decodable(self.processor.as_str()) {
                    return false;
                }
                match Address::from_public_address(self.processor.as_str()) {
                    Ok(processor_address) => {
                        let signing_data = self.get_signing_data();
                        processor_address.verify(signing_data.as_str(), signature.as_str())
                    },
                    Err(_) => false,
                }
            },
            None => false,
        }
    }

    /// The original transaction.
    pub fn transaction(&self) -> (t: &Transaction)
        ensures
            *t == self.transaction,
    {
        &self.transaction
    }

    /// The processor's address.
    pub fn processor(&self) -> (s: &str)
        ensures
            s@ == self.processor@,
    {
        self.processor.as_str()
    }

    /// The processor's fee.
    pub fn fee(&self) -> (f: u64)
        ensures
            f == self.fee,
    {
        self.fee
    }

    /// The creation time.
    pub fn timestamp(&self) -> (t: u64)
        ensures
            t == self.timestamp,
    {
        self.timestamp
    }

    /// The processor's signature, if any.
    pub fn signature(&self) -> (m: Option<&str>)
        ensures
            match m {
                Some(s) => self.signature is Some && s@ == self.signature->Some_0@,
                None => self.signature is None,
            },
    {
        match &self.signature {
            Some(s) => Some(s.as_str()),
            None => None,
        }
    }
}

/// A process transaction over a verifying transaction, signed by the key that the processor's
/// address names, verifies exactly when strict verification accepts that key's own signature.
pub proof fn lemma_signed_process_transaction_verifies(p: ProcessTransaction, secret: Seq<u8>)
    requires
        transaction_verifies(p.transaction),
        base58_decoder_safe(p.processor@),
        address_public_key(p.processor@) == Some(ed25519_public_key(secret)),
        ed25519_signature(secret, encode_utf8(process_signing_text(p))).len() == 64,
        p.signature is Some,
        p.signature->Some_0@ == upper_hex(ed25519_signature(secret, encode_utf8(process_signing_text(p)))),
    ensures
        process_verifies(p) == ed25519_verify_strict(
            ed25519_public_key(secret),
            encode_utf8(process_signing_text(p)),
            ed25519_signature(secret, encode_utf8(process_signing_text(p))),
        ),
{
    lemma_signature_hex_round_trip(ed25519_signature(secret, encode_utf8(process_signing_text(p))));
}

/// The fee is a tenth of the total, rounded down, and never more than the total.
pub proof fn lemma_fee_is_a_tenth(p: ProcessTransaction)
    requires
        p.fee == total(p.transaction.outputs@) * 10 / 100,
    ensures
        p.fee == total(p.transaction.outputs@) / 10,
        p.fee <= total(p.transaction.outputs@),
{
    lemma_total_nonneg(p.transaction.outputs@);
}

} // verus!
