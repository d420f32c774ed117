//! Ed25519 keys and signatures (ed25519-dalek) and base58 text (base58), as plain bytes.
use vstd::prelude::*;
use crate::crypto::hex::{parse_signature_hex, upper_hex};
use crate::text::chars_of;
use base58::{FromBase58, ToBase58};
use ed25519_dalek::Signer;

verus! {

/// The Ed25519 public key of a 32-byte secret key.
pub uninterp spec fn ed25519_public_key(secret: Seq<u8>) -> Seq<u8>;

/// Whether 32 bytes are the compressed form of a curve point, so that they can serve as a public key.
pub uninterp spec fn ed25519_point_valid(public: Seq<u8>) -> bool;

/// The Ed25519 signature that a secret key makes of a message.
pub uninterp spec fn ed25519_signature(secret: Seq<u8>, message: Seq<u8>) -> Seq<u8>;

/// Whether strict Ed25519 verification accepts a signature of a message under a public key.
pub uninterp spec fn ed25519_verify_strict(public: Seq<u8>, message: Seq<u8>, signature: Seq<u8>) -> bool;

/// The base58 text of some bytes.
pub uninterp spec fn base58_encode(bytes: Seq<u8>) -> Seq<char>;

/// The bytes that base58 text stands for, if it is valid base58.
pub uninterp spec fn base58_decode(text: Seq<char>) -> Option<Seq<u8>>;

/// A fresh random secret key: `SigningKey::generate` with the operating system's generator,
/// as its 32 bytes. Nothing can be promised of the bytes.
#[verifier::external_body]
pub(crate) fn generate_secret_key() -> [u8; 32] {
    let mut csprng = rand::rngs::OsRng;
    ed25519_dalek::SigningKey::generate(&mut csprng).to_bytes()
}

/// `SigningKey::from_bytes(secret).verifying_key().to_bytes()`: the public key of a secret key.
/// The result is the compression of a point of the curve, so it decompresses again: it is a
/// valid public key.
#[verifier::external_body]
pub(crate) fn public_key_of(secret: &[u8; 32]) -> (public: [u8; 32])
    ensures
        public@ == ed25519_public_key(secret@),
        ed25519_point_valid(public@),
{
    ed25519_dalek::SigningKey::from_bytes(secret).verifying_key().to_bytes()
}

/// `VerifyingKey::from_bytes(bytes).is_ok()`: whether the bytes decompress to a curve point.
#[verifier::external_body]
pub(crate) fn public_key_is_valid(public: &[u8; 32]) -> (b: bool)
    ensures
        b == ed25519_point_valid(public@),
{
    ed25519_dalek::VerifyingKey::from_bytes(public).is_ok()
}

/// `SigningKey::from_bytes(secret).sign(message).to_bytes()`: the deterministic Ed25519
/// signature of `message`.
#[verifier::external_body]
pub(crate) fn sign_bytes(secret: &[u8; 32], message: &[u8]) -> (signature: [u8; 64])
    ensures
        signature@ == ed25519_signature(secret@, message@),
{
    ed25519_dalek::SigningKey::from_bytes(secret).sign(message).to_bytes()
}

/// `VerifyingKey::from_bytes(public)` then `verify_strict(message, signature)`: whether strict
/// verification accepts the signature. The key's bytes must decompress, which `public_key_is_valid`
/// tells.
#[verifier::external_body]
pub(crate) fn verify_strict(public: &[u8; 32], message: &[u8], signature: &[u8; 64]) -> (ok: bool)
    requires
        ed25519_point_valid(public@),
    ensures
        ok == ed25519_verify_strict(public@, message@, signature@),
{
    let key = ed25519_dalek::VerifyingKey::from_bytes(public).unwrap();
    key.verify_strict(message, &ed25519_dalek::Signature::from_bytes(signature)).is_ok()
}

/// `Signature::to_string()`: ed25519's `Display` writes the 64 bytes as upper-case hexadecimal.
#[verifier::external_body]
pub(crate) fn signature_to_hex(signature: &[u8; 64]) -> (text: String)
    ensures
        text@ == upper_hex(signature@),
{
    ed25519_dalek::Signature::from_bytes(signature).to_string()
}

/// `Signature::from_str(text)`: 128 hexadecimal digits of one case give the 64 bytes they spell;
/// anything else is refused.
#[verifier::external_body]
pub(crate) fn signature_from_hex(text: &str) -> (signature: Option<[u8; 64]>)
    ensures
        match parse_signature_hex(text@) {
            Some(bytes) => signature is Some && signature->Some_0@ == bytes,
            None => signature is None,
        },
{
    match <ed25519_dalek::Signature as std::str::FromStr>::from_str(text) {
        Ok(sig) => Some(sig.to_bytes()),
        Err(_) => None,
    }
}

/// `bytes.to_base58()`. The text is at most 64 characters long (the encoder's buffer holds at
/// most 45 digits for 32 bytes), and decoding it gives the bytes back: leading zero bytes become
/// '1's and back, the rest is the same number in base 58.
#[verifier::external_body]
pub(crate) fn to_base58(bytes: &[u8; 32]) -> (text: String)
    ensures
        text@ == base58_encode(bytes@),
        text@.len() <= 64,
        base58_decode(text@) == Some(bytes@),
{
    bytes.to_base58()
}

/// Whether `c` is a digit of the base58 alphabet
/// ("123456789ABCDEFGHJKLMNPQRSTUVWXYZabcdefghijkmnopqrstuvwxyz").
pub open spec fn is_base58_char(c: char) -> bool {
    ||| ('1' <= c <= '9')
    ||| ('A' <= c <= 'H')
    ||| ('J' <= c <= 'N')
    ||| ('P' <= c <= 'Z')
    ||| ('a' <= c <= 'k')
    ||| ('m' <= c <= 'z')
}

/// Whether some character of `text` is outside the base58 alphabet.
pub open spec fn has_non_base58_char(text: Seq<char>) -> bool {
    exists|i: int| 0 <= i < text.len() && !is_base58_char(#[trigger] text[i])
}

/// Texts on which the base58 decoder is known to return. It works in a buffer of 132 bytes and
/// panics only when a text of base58 digits stands for more than 132 bytes, which needs more than
/// 132 characters; a character outside the alphabet makes it return an error before that point.
pub open spec fn base58_decoder_safe(text: Seq<char>) -> bool {
    text.len() <= 132 || has_non_base58_char(text)
}

/// Whether the base58 decoder can be given `text` (see `base58_decoder_safe`).
pub fn is_base58_decodable(text: &str) -> (b: bool)
    ensures
        b == base58_decoder_safe(text@),
{
    let chars = chars_of(text);
    if chars.len() <= 132 {
        return true;
    }
    let mut i: usize = 0;
    while i < chars.len()
        invariant
            chars@ == text@,
            i <= chars@.len(),
            forall|j: int| 0 <= j < i ==> is_base58_char(#[trigger] chars@[j]),
        decreases chars@.len() - i,
    {
        let c = chars[i];
        let ok = ('1' <= c && c <= '9') || ('A' <= c && c <= 'H') || ('J' <= c && c <= 'N')
            || ('P' <= c && c <= 'Z') || ('a' <= c && c <= 'k') || ('m' <= c && c <= 'z');
        if !ok {
            assert(!is_base58_char(text@[i as int]));
            return true;
        }
        i = i + 1;
    }
    false
}

/// `text.from_base58()`: the bytes that valid base58 text stands for; a character outside the
/// alphabet makes it fail. The decoder panics on some texts of more than 132 base58 digits (for
/// example 133 '1's), so only texts on which it returns are passed.
#[verifier::external_body]
pub(crate) fn from_base58(text: &str) -> (bytes: Option<Vec<u8>>)
    requires
        base58_decoder_safe(text@),
    ensures
        match base58_decode(text@) {
            Some(b) => bytes is Some && bytes->Some_0@ == b,
            None => bytes is None,
        },
        has_non_base58_char(text@) ==> bytes is None,
{
    match text.from_base58() {
        Ok(b) => Some(b),
        Err(_) => None,
    }
}

} // verus!
