//! Parsing "host:port" peer addresses.
use vstd::prelude::*;
use crate::text::{chars_of, string_from_chars};

verus! {

/// Information about a peer in the network.
#[derive(Debug, Clone)]
pub struct PeerInfo {
    /// Network address of the peer
    pub address: String,
    pub port: u16,
}

/// Why a decimal `u16` could not be read, as the standard library's `ParseIntError` kinds.
#[derive(Debug, Clone, Copy, PartialEq, Eq)]
pub enum IntError {
    Empty,
    InvalidDigit,
    PosOverflow,
}

/// Whether `c` is an ASCII decimal digit.
pub open spec fn is_digit(c: char) -> bool {
    '0' <= c <= '9'
}

/// The value of a decimal digit character.
pub open spec fn digit_value(c: char) -> int {
    (c as int) - ('0' as int)
}

/// Reading the digits of `s` left to right into a `u16`: the first non-digit is an invalid digit,
/// and the first prefix whose value exceeds `u16::MAX` is an overflow.
pub open spec fn u16_digits(s: Seq<char>) -> Result<int, IntError>
    decreases s.len(),
{
    if s.len() == 0 {
        Ok(0)
    } else {
        match u16_digits(s.drop_last()) {
            Err(e) => Err(e),
            Ok(v) => if !is_digit(s.last()) {
                Err(IntError::InvalidDigit)
            } else if v * 10 + digit_value(s.last()) > 65535 {
                Err(IntError::PosOverflow)
            } else {
                Ok(v * 10 + digit_value(s.last()))
            },
        }
    }
}

/// What `str::parse::<u16>` gives for `s`: empty input, a lone sign, a leading '+', then digits.
pub open spec fn parse_u16(s: Seq<char>) -> Result<int, IntError> {
    if s.len() == 0 {
        Err(IntError::Empty)
    } else if s.len() == 1 && (s[0] == '+' || s[0] == '-') {
        Err(IntError::InvalidDigit)
    } else if s[0] == '+' {
        u16_digits(s.drop_first())
    } else {
        u16_digits(s)
    }
}

/// The message that `ParseIntError`'s `Display` writes for each kind.
pub open spec fn int_error_message(e: IntError) -> Seq<char> {
    match e {
        IntError::Empty => "cannot parse integer from empty string"@,
        IntError::InvalidDigit => "invalid digit found in string"@,
        IntError::PosOverflow => "number too large to fit in target type"@,
    }
}

/// The number of occurrences of `c` in `s`.
pub open spec fn count_char(s: Seq<char>, c: char) -> nat
    decreases s.len(),
{
    if s.len() == 0 {
        0
    } else {
        count_char(s.drop_last(), c) + if s.last() == c { 1nat } else { 0nat }
    }
}

/// Reads a `u16` from `s` as `str::parse::<u16>` does.
pub fn parse_u16_from(s: &str) -> (r: Result<u16, String>)
    ensures
        match parse_u16(s@) {
            Ok(v) => r is Ok && r->Ok_0 == v,
            Err(e) => r is Err && r->Err_0@ == int_error_message(e),
        },
{
    let chars = chars_of(s);
    let n = chars.len();
    if n == 0 {
        return Err(String::from_str("cannot parse integer from empty string"));
    }
    if n == 1 && (chars[0] == '+' || chars[0] == '-') {
        return Err(String::from_str("invalid digit found in string"));
    }
    let start: usize = if chars[0] == '+' { 1 } else { 0 };
    let ghost digits = chars@.subrange(start as int, n as int);
    proof {
        if start == 1 {
            assert(digits =~= s@.drop_first());
        } else {
            assert(digits =~= s@);
        }
    }
    assert(parse_u16(s@) == u16_digits(digits));
    let mut value: u32 = 0;
    let mut i: usize = start;
    assert(digits.subrange(0, 0) =~= Seq::<char>::empty());
    while i < n
        invariant
            chars@ == s@,
            n == chars@.len(),
            start <= i <= n,
            digits == chars@.subrange(start as int, n as int),
            u16_digits(digits.subrange(0, i - start)) == Ok::<int, IntError>(value as int),
            value <= 65535,
            parse_u16(s@) == u16_digits(digits),
        decreases n - i,
    {
        let c = chars[i];
        let ghost prefix = digits.subrange(0, i - start + 1);
        assert(prefix.drop_last() =~= digits.subrange(0, i - start));
        assert(prefix.last() == c);
        if !('0' <= c && c <= '9') {
            proof {
                assert(u16_digits(prefix) == Err::<int, IntError>(IntError::InvalidDigit));
                lemma_u16_digits_error_stays(digits, (i - start + 1) as int);
                assert(parse_u16(s@) == u16_digits(digits));
            }
            return Err(String::from_str("invalid digit found in string"));
        }
        let d: u32 = (c as u32) - ('0' as u32);
        let next: u32 = value * 10 + d;
        assert(d == digit_value(c));
        if next > 65535 {
            proof {
                assert(u16_digits(prefix) == Err::<int, IntError>(IntError::PosOverflow));
                lemma_u16_digits_error_stays(digits, (i - start + 1) as int);
                assert(parse_u16(s@) == u16_digits(digits));
            }
            return Err(String::from_str("number too large to fit in target type"));
        }
        assert(u16_digits(prefix) == Ok::<int, IntError>(next as int));
        value = next;
        i = i + 1;
    }
    assert(digits.subrange(0, n - start) =~= digits);
    assert(parse_u16(s@) == u16_digits(digits));
    Ok(value as u16)
}

/// Once a prefix of the digits fails, the whole sequence fails the same way.
pub proof fn lemma_u16_digits_error_stays(s: Seq<char>, k: int)
    requires
        0 <= k <= s.len(),
        u16_digits(s.subrange(0, k)) is Err,
    ensures
        u16_digits(s) == u16_digits(s.subrange(0, k)),
    decreases s.len() - k,
{
    if k < s.len() {
        let next = s.subrange(0, k + 1);
        assert(next.drop_last() =~= s.subrange(0, k));
        lemma_u16_digits_error_stays(s, k + 1);
    } else {
        assert(s.subrange(0, k) =~= s);
    }
}

/// `p` is the position of the first ':' in `s`.
pub open spec fn first_colon_at(s: Seq<char>, p: int) -> bool {
    &&& 0 <= p < s.len()
    &&& s[p] == ':'
    &&& count_char(s.subrange(0, p), ':') == 0
}

/// What reading "host:port" gives: the host and port, or the message of the refusal.
pub open spec fn spec_peer_info(s: Seq<char>) -> Result<(Seq<char>, int), Seq<char>> {
    if count_char(s, ':') != 1 {
        Err("Invalid address format"@)
    } else {
        let p = choose|p: int| first_colon_at(s, p);
        match parse_u16(s.subrange(p + 1, s.len() as int)) {
            Ok(v) => Ok((s.subrange(0, p), v)),
            Err(e) => Err(int_error_message(e)),
        }
    }
}

/// Splits "host:port" into the peer's address and port.
/// An address with other than exactly one ':' is "Invalid address format"; a port that is not a
/// decimal `u16` is refused with the standard library's message for why.
pub fn get_peer_info(address: &str) -> (r: Result<PeerInfo, String>)
    ensures
        match spec_peer_info(address@) {
            Ok((host, port)) => r is Ok && r->Ok_0.address@ == host && r->Ok_0.port == port,
            Err(msg) => r is Err && r->Err_0@ == msg,
        },
{
    let chars = chars_of(address);
    let n = chars.len();
    let mut colons: usize = 0;
    let mut pos: usize = 0;
    let mut i: usize = 0;
    while i < n
        invariant
            chars@ == address@,
            n == chars@.len(),
            i <= n,
            colons == count_char(address@.subrange(0, i as int), ':'),
            colons <= i,
            colons >= 1 ==> pos < i && address@[pos as int] == ':' && count_char(address@.subrange(0, pos as int), ':') == 0,
        decreases n - i,
    {
        let ghost before = address@.subrange(0, i as int);
        assert(address@.subrange(0, i + 1).drop_last() =~= before);
        if chars[i] == ':' {
            if colons == 0 {
                pos = i;
            }
            colons = colons + 1;
        }
        i = i + 1;
    }
    assert(address@.subrange(0, n as int) =~= address@);
    if colons != 1 {
        return Err(String::from_str("Invalid address format"));
    }
    proof { lemma_single_colon_rest(address@, pos as int); }
    let host = string_from_chars(&chars, 0, pos);
    let port_text = string_from_chars(&chars, pos + 1, n);
    proof {
        assert(first_colon_at(address@, pos as int));
        let q = choose|q: int| first_colon_at(address@, q);
        lemma_first_colon_unique(address@, q, pos as int);
    }
    let r = match parse_u16_from(port_text.as_str()) {
        Ok(port) => Ok(PeerInfo { address: host, port }),
        Err(e) => Err(e),
    };
    assert(address@[pos as int] == ':');
    r
}

/// A ':' at position `q` makes the count positive.
pub proof fn lemma_count_char_positive(s: Seq<char>, q: int, c: char)
    requires
        0 <= q < s.len(),
        s[q] == c,
    ensures
        count_char(s, c) >= 1,
{
    lemma_count_char_split(s, q, c);
    let rest = s.subrange(q, s.len() as int);
    lemma_count_char_split(rest, 1, c);
    assert(rest.subrange(0, 1).drop_last() =~= Seq::<char>::empty());
}

/// There is one first ':'.
pub proof fn lemma_first_colon_unique(s: Seq<char>, p: int, q: int)
    requires
        first_colon_at(s, p),
        first_colon_at(s, q),
    ensures
        p == q,
{
    if p < q {
        assert(s.subrange(0, q)[p] == ':');
        lemma_count_char_positive(s.subrange(0, q), p, ':');
    } else if q < p {
        assert(s.subrange(0, p)[q] == ':');
        lemma_count_char_positive(s.subrange(0, p), q, ':');
    }
}

/// With one ':' in all of `s`, the part after the first ':' holds none.
proof fn lemma_single_colon_rest(s: Seq<char>, p: int)
    requires
        0 <= p < s.len(),
        s[p] == ':',
        count_char(s, ':') == 1,
    ensures
        count_char(s.subrange(p + 1, s.len() as int), ':') == 0,
{
    lemma_count_char_split(s, p + 1, ':');
    lemma_count_char_split(s.subrange(0, p + 1), p, ':');
    assert(s.subrange(0, p + 1).subrange(0, p) =~= s.subrange(0, p));
    assert(s.subrange(0, p + 1).subrange(p, p + 1) =~= seq![':']);
    assert(seq![':'].drop_last() =~= Seq::<char>::empty());
}

/// Counting over a concatenation adds the counts of the parts.
pub proof fn lemma_count_char_split(s: Seq<char>, k: int, c: char)
    requires
        0 <= k <= s.len(),
    ensures
        count_char(s, c) == count_char(s.subrange(0, k), c) + count_char(s.subrange(k, s.len() as int), c),
    decreases s.len() - k,
{
    if k == s.len() {
        assert(s.subrange(0, k) =~= s);
        assert(s.subrange(k, s.len() as int) =~= Seq::<char>::empty());
    } else {
        lemma_count_char_split(s.drop_last(), k, c);
        assert(s.drop_last().subrange(0, k) =~= s.subrange(0, k));
        let tail = s.subrange(k, s.len() as int);
        assert(tail.drop_last() =~= s.drop_last().subrange(k, s.len() - 1));
        assert(tail.last() == s.last());
    }
}

} // verus!
