//! An address: an Ed25519 key pair, or a public key alone, and its base58 public address.
use vstd::prelude::*;
use crate::crypto::hex::{parse_signature_hex, upper_hex};
use crate::crypto::keys::{
    base58_decode, base58_decoder_safe, base58_encode, ed25519_point_valid, ed25519_public_key, ed25519_signature,
    ed25519_verify_strict, from_base58, generate_secret_key, public_key_is_valid, public_key_of,
    sign_bytes, signature_from_hex, signature_to_hex, to_base58, verify_strict,
};
use crate::text::str_eq;
use vstd::string::StringSliceAdditionalSpecFns;

verus! {

/// The public key that a public address names, when `Address::from_public_address` accepts it.
pub open spec fn address_public_key(text: Seq<char>) -> Option<Seq<u8>> {
    match base58_decode(text) {
        Some(b) => if b.len() == 32 && ed25519_point_valid(b) && base58_encode(b) == text {
            Some(b)
        } else {
            None
        },
        None => None,
    }
}

/// The message with which `Address::from_public_address` refuses `text`.
pub open spec fn address_error(text: Seq<char>) -> Seq<char> {
    match base58_decode(text) {
        None => "Invalid base58 address"@,
        Some(b) => if b.len() != 32 {
            "Invalid public key length"@
        } else if !ed25519_point_valid(b) {
            "Invalid public key bytes"@
        } else {
            "Address checksum mismatch"@
        },
    }
}

/// Whether a signature given as text is one that strict verification accepts for `message`
/// under `public`.
pub open spec fn signature_text_valid(public: Seq<u8>, message: Seq<u8>, signature: Seq<char>) -> bool {
    match parse_signature_hex(signature) {
        Some(sig) => ed25519_verify_strict(public, message, sig),
        None => false,
    }
}

/// An address that can verify signatures, and sign when it holds its secret key.
pub struct Address {
    private_key: Option<[u8; 32]>,
    public_key: [u8; 32],
    public_address: String,
}

impl Address {
    #[verifier::type_invariant]
    spec fn consistent(self) -> bool {
        &&& self.public_address@ == base58_encode(self.public_key@)
        &&& base58_decode(self.public_address@) == Some(self.public_key@)
        &&& self.public_address@.len() <= 64
        &&& ed25519_point_valid(self.public_key@)
        &&& self.private_key matches Some(sk) ==> self.public_key@ == ed25519_public_key(sk@)
    }

    /// The secret key, if the address holds one.
    pub closed spec fn secret(self) -> Option<Seq<u8>> {
        match self.private_key {
            Some(sk) => Some(sk@),
            None => None,
        }
    }

    /// The public key's bytes.
    pub closed spec fn public(self) -> Seq<u8> {
        self.public_key@
    }

    /// The base58 public address.
    pub closed spec fn text(self) -> Seq<char> {
        self.public_address@
    }

    /// A new address with a fresh random key pair.
    pub fn new() -> (a: Self)
        ensures
            a.secret() is Some,
            a.public() == ed25519_public_key(a.secret()->Some_0),
            a.text() == base58_encode(a.public()),
    {
        let secret = generate_secret_key();
        Self::from_private_key(secret)
    }

    /// The address of a secret key.
    pub fn from_private_key(private_key: [u8; 32]) -> (a: Self)
        ensures
            a.secret() == Some(private_key@),
            a.public() == ed25519_public_key(private_key@),
            a.text() == base58_encode(a.public()),
    {
        let public_key = public_key_of(&private_key);
        let public_address = Self::generate_address(&public_key);
        Address { private_key: Some(private_key), public_key, public_address }
    }

    /// A public-only address from its base58 text. The text must decode to 32 bytes that are a
    /// valid public key and whose encoding is the text itself. Only texts that the base58
    /// decoder returns on are taken (`is_base58_decodable` tells them).
    pub fn from_public_address(public_address: &str) -> (r: Result<Self, &'static str>)
        requires
            base58_decoder_safe(public_address@),
        ensures
            match address_public_key(public_address@) {
                Some(pk) => r is Ok && r->Ok_0.secret() is None && r->Ok_0.public() == pk
                    && r->Ok_0.text() == public_address@,
                None => r is Err && r->Err_0@ == address_error(public_address@),
            },
    {
        let decoded = match from_base58(public_address) {
            Some(d) => d,
            None => return Err("Invalid base58 address"),
        };
        if decoded.len() != 32 {
            return Err("Invalid public key length");
        }
        let mut bytes = [0u8; 32];
        let mut i: usize = 0;
        while i < 32
            invariant
                decoded@.len() == 32,
                i <= 32,
                forall|j: int| 0 <= j < i ==> bytes@[j] == decoded@[j],
            decreases 32 - i,
        {
            bytes[i] = decoded[i];
            i = i + 1;
        }
        assert(bytes@ =~= decoded@);
        if !public_key_is_valid(&bytes) {
            return Err("Invalid public key bytes");
        }
        let generated_address = Self::generate_address(&bytes);
        if !str_eq(generated_address.as_str(), public_address) {
            return Err("Address checksum mismatch");
        }
        Ok(Address { private_key: None, public_key: bytes, public_address: generated_address })
    }

    fn generate_address(public_key: &[u8; 32]) -> (text: String)
        ensures
            text@ == base58_encode(public_key@),
            text@.len() <= 64,
            base58_decode(text@) == Some(public_key@),
    {
        to_base58(public_key)
    }

    /// The secret key, if the address holds one.
    pub fn get_private_key(&self) -> (k: Option<&[u8; 32]>)
        ensures
            match k {
                Some(sk) => self.secret() == Some(sk@),
                None => self.secret() is None,
            },
    {
        match &self.private_key {
            Some(sk) => Some(sk),
            None => None,
        }
    }

    /// The public key.
    pub fn get_public_key(&self) -> (k: &[u8; 32])
        ensures
            k@ == self.public(),
    {
        &self.public_key
    }

    /// The base58 public address.
    /// It is at most 64 characters long and names this address's public key: an address rebuilt
    /// from it holds the same public key.
    pub fn get_public_address(&self) -> (s: &str)
        ensures
            s@ == self.text(),
            s@.len() <= 64,
            address_public_key(s@) == Some(self.public()),
            s@ == base58_encode(self.public()),
    {
        proof { use_type_invariant(self); }
        self.public_address.as_str()
    }

    /// Signs the UTF-8 bytes of `message`; the signature is its upper-case hexadecimal text.
    /// A public-only address cannot sign.
    pub fn sign(&mut self, message: &str) -> (r: Result<String, &'static str>)
        ensures
            *final(self) == *old(self),
            match old(self).secret() {
                Some(sk) => r is Ok && r->Ok_0@ == upper_hex(ed25519_signature(sk, message.spec_bytes())),
                None => r is Err && r->Err_0@ == "Cannot sign: address is public-only"@,
            },
    {
        match &self.private_key {
            Some(key) => {
                let signature = sign_bytes(key, message.as_bytes());
                Ok(signature_to_hex(&signature))
            },
            None => Err("Cannot sign: address is public-only"),
        }
    }

    /// Whether `signature` is the hexadecimal text of a signature of `message`'s UTF-8 bytes that
    /// strict verification accepts under this address's public key.
    pub fn verify(&self, message: &str, signature: &str) -> (ok: bool)
        ensures
            ok == signature_text_valid(self.public(), message.spec_bytes(), signature@),
    {
        proof { use_type_invariant(self); }
        match signature_from_hex(signature) {
            Some(sig) => verify_strict(&self.public_key, message.as_bytes(), &sig),
            None => false,
        }
    }
}

impl Default for Address {
    fn default() -> (a: Self)
        ensures
            a.secret() is Some,
            a.public() == ed25519_public_key(a.secret()->Some_0),
            a.text() == base58_encode(a.public()),
    {
        Self::new()
    }
}

} // verus!
