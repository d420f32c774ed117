//! Hexadecimal text of signatures.
use vstd::prelude::*;

verus! {

/// The upper-case hexadecimal digit for `d` (0 to 15).
pub open spec fn upper_hex_digit(d: int) -> char {
    if d < 10 { ((d + 48) as u8) as char } else { ((d + 55) as u8) as char }
}

/// Each byte as two upper-case hexadecimal digits, high nibble first.
pub open spec fn upper_hex(bytes: Seq<u8>) -> Seq<char>
    decreases bytes.len(),
{
    if bytes.len() == 0 {
        Seq::empty()
    } else {
        upper_hex(bytes.drop_last()) + seq![
            upper_hex_digit((bytes.last() / 16) as int),
            upper_hex_digit((bytes.last() % 16) as int),
        ]
    }
}

/// Whether `c` is a hexadecimal digit, in either case.
pub open spec fn is_hex_char(c: char) -> bool {
    ('0' <= c <= '9') || ('a' <= c <= 'f') || ('A' <= c <= 'F')
}

/// The value of a hexadecimal digit character.
pub open spec fn hex_value(c: char) -> int {
    if '0' <= c <= '9' {
        (c as int) - 48
    } else if 'a' <= c <= 'f' {
        (c as int) - 87
    } else {
        (c as int) - 55
    }
}

/// The bytes that a string of hexadecimal digit pairs stands for.
pub open spec fn hex_decode(s: Seq<char>) -> Seq<u8> {
    Seq::new(s.len() / 2, |i: int| (hex_value(s[2 * i]) * 16 + hex_value(s[2 * i + 1])) as u8)
}

/// Whether `s` mixes lower-case and upper-case letters.
pub open spec fn mixes_case(s: Seq<char>) -> bool {
    (exists|i: int| 0 <= i < s.len() && 'a' <= #[trigger] s[i] <= 'z')
        && (exists|j: int| 0 <= j < s.len() && 'A' <= #[trigger] s[j] <= 'Z')
}

/// What reading an Ed25519 signature from hexadecimal gives: 128 hexadecimal digits, all in
/// one case, stand for the 64 bytes they spell; anything else is refused.
pub open spec fn parse_signature_hex(s: Seq<char>) -> Option<Seq<u8>> {
    if s.len() == 128 && (forall|i: int| 0 <= i < s.len() ==> is_hex_char(#[trigger] s[i])) && !mixes_case(s) {
        Some(hex_decode(s))
    } else {
        None
    }
}

/// A digit of `upper_hex` is a hexadecimal digit of its value and not a lower-case letter.
pub proof fn lemma_upper_hex_digit(d: int)
    requires
        0 <= d < 16,
    ensures
        is_hex_char(upper_hex_digit(d)),
        hex_value(upper_hex_digit(d)) == d,
        !('a' <= upper_hex_digit(d) <= 'z'),
{
}

/// `upper_hex` writes two digits per byte: the high nibble, then the low one.
pub proof fn lemma_upper_hex_shape(b: Seq<u8>)
    ensures
        upper_hex(b).len() == 2 * b.len(),
        forall|i: int| 0 <= i < b.len() ==> #[trigger] upper_hex(b)[2 * i] == upper_hex_digit((b[i] / 16) as int)
            && upper_hex(b)[2 * i + 1] == upper_hex_digit((b[i] % 16) as int),
    decreases b.len(),
{
    if b.len() > 0 {
        lemma_upper_hex_shape(b.drop_last());
        let pre = upper_hex(b.drop_last());
        assert forall|i: int| 0 <= i < b.len() implies #[trigger] upper_hex(b)[2 * i] == upper_hex_digit((b[i] / 16) as int)
            && upper_hex(b)[2 * i + 1] == upper_hex_digit((b[i] % 16) as int) by {
            if i < b.len() - 1 {
                assert(b.drop_last()[i] == b[i]);
                assert(pre[2 * i] == upper_hex(b)[2 * i]);
            }
        }
    }
}

/// Reading back the upper-case hexadecimal text of 64 bytes gives the bytes.
pub proof fn lemma_signature_hex_round_trip(b: Seq<u8>)
    requires
        b.len() == 64,
    ensures
        parse_signature_hex(upper_hex(b)) == Some(b),
{
    lemma_upper_hex_shape(b);
    let s = upper_hex(b);
    assert forall|i: int| 0 <= i < s.len() implies is_hex_char(#[trigger] s[i]) && !('a' <= s[i] <= 'z') by {
        let j = i / 2;
        assert(s[2 * j] == upper_hex_digit((b[j] / 16) as int));
        if i % 2 == 0 {
            assert(i == 2 * j);
            lemma_upper_hex_digit((b[j] / 16) as int);
        } else {
            assert(i == 2 * j + 1);
            lemma_upper_hex_digit((b[j] % 16) as int);
        }
    }
    assert(!mixes_case(s));
    assert forall|i: int| 0 <= i < 64 implies #[trigger] hex_decode(s)[i] == b[i] by {
        lemma_upper_hex_digit((b[i] / 16) as int);
        lemma_upper_hex_digit((b[i] % 16) as int);
        assert(s[2 * i] == upper_hex_digit((b[i] / 16) as int));
    }
    assert(hex_decode(s) =~= b);
}

} // verus!
