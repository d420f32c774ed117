//! Structured log events: their identifiers, names, and the messages they print.
pub mod event;
pub mod format;
pub mod types;

use vstd::prelude::*;
use crate::crypto::hex::upper_hex_digit;

verus! {

/// The lower-case hexadecimal digit for `d` (0 to 15).
pub open spec fn lower_hex_digit(d: int) -> char {
    if d < 10 { upper_hex_digit(d) } else { ((d + 87) as u8) as char }
}

/// The last `k` hexadecimal digits of `n`, lower case, most significant first.
pub open spec fn hex_digits(n: nat, k: nat) -> Seq<char>
    decreases k,
{
    if k == 0 {
        Seq::empty()
    } else {
        hex_digits(n / 16, (k - 1) as nat).push(lower_hex_digit((n % 16) as int))
    }
}

fn push_hex_digits(out: &mut String, n: u64, k: u64)
    ensures
        final(out)@ == old(out)@ + hex_digits(n as nat, k as nat),
    decreases k,
{
    if k > 0 {
        push_hex_digits(out, n / 16, k - 1);
        let d: u64 = n % 16;
        let c: char = if d < 10 { ((d + 48) as u8) as char } else { ((d + 87) as u8) as char };
        out.push(c);
        assert(final(out)@ =~= old(out)@ + hex_digits(n as nat, k as nat));
    } else {
        assert(final(out)@ =~= old(out)@ + hex_digits(n as nat, k as nat));
    }
}

/// A trace id: the value of the counter as 16 lower-case hexadecimal digits in brackets. The
/// counter then moves on by one, wrapping around at `u64::MAX`.
pub fn generate_trace_id(counter: &mut u64) -> (s: String)
    ensures
        s@ == trace_id_text(*old(counter)),
        *final(counter) == next_counter(*old(counter)),
{
    let id = *counter;
    *counter = if id == u64::MAX { 0 } else { id + 1 };
    let mut s = String::new();
    s.push('[');
    push_hex_digits(&mut s, id, 16);
    s.push(']');
    assert(s@ =~= seq!['['] + hex_digits(id as nat, 16) + seq![']']);
    s
}

/// The trace id for counter value `n`: "[", its sixteen lower-case hexadecimal digits, "]".
pub open spec fn trace_id_text(n: u64) -> Seq<char> {
    seq!['['] + hex_digits(n as nat, 16) + seq![']']
}

/// The counter value after `n`: one more, or 0 after the largest value.
pub open spec fn next_counter(n: u64) -> u64 {
    if n == u64::MAX { 0 } else { (n + 1) as u64 }
}

/// The value of a lower-case hexadecimal digit.
pub open spec fn hex_char_value(c: char) -> int {
    if c <= '9' { c as int - 48 } else { c as int - 87 }
}

/// The number that a string of lower-case hexadecimal digits spells.
pub open spec fn hex_number(s: Seq<char>) -> int
    decreases s.len(),
{
    if s.len() == 0 { 0 } else { hex_number(s.drop_last()) * 16 + hex_char_value(s.last()) }
}

/// 16 to the power `k`.
pub open spec fn pow16(k: nat) -> nat
    decreases k,
{
    if k == 0 { 1 } else { 16 * pow16((k - 1) as nat) }
}

proof fn lemma_hex_digits_number(n: nat, k: nat)
    ensures
        hex_digits(n, k).len() == k,
        pow16(k) > 0,
        hex_number(hex_digits(n, k)) == n % pow16(k),
    decreases k,
{
    if k > 0 {
        lemma_hex_digits_number(n / 16, (k - 1) as nat);
        let d = n % 16;
        assert(hex_char_value(lower_hex_digit(d as int)) == d);
        let h = hex_digits(n, k);
        assert(h.drop_last() =~= hex_digits(n / 16, (k - 1) as nat));
        vstd::arithmetic::div_mod::lemma_breakdown(n as int, 16, pow16((k - 1) as nat) as int);
    } else {
        vstd::arithmetic::div_mod::lemma_small_mod(0, 1);
    }
}

proof fn lemma_trace_id_number(n: u64)
    ensures
        trace_id_text(n).len() == 18,
        trace_id_text(n).subrange(1, 17) == hex_digits(n as nat, 16),
        hex_number(hex_digits(n as nat, 16)) == n,
{
    lemma_hex_digits_number(n as nat, 16);
    assert(pow16(16) == 0x1_0000_0000_0000_0000) by {
        reveal_with_fuel(pow16, 17);
    }
    vstd::arithmetic::div_mod::lemma_small_mod(n as nat, pow16(16));
    assert(trace_id_text(n).subrange(1, 17) =~= hex_digits(n as nat, 16));
}

/// Trace ids tell counter values apart: different values give different ids, and each id's
/// sixteen digits spell its counter value.
pub proof fn lemma_trace_ids_distinct(a: u64, b: u64)
    requires
        a != b,
    ensures
        trace_id_text(a) != trace_id_text(b),
        hex_number(trace_id_text(a).subrange(1, 17)) == a,
{
    lemma_trace_id_number(a);
    lemma_trace_id_number(b);
}

/// Two successive trace ids differ, and until the counter wraps the second one's number is one
/// more than the first one's.
pub proof fn lemma_successive_trace_ids(n: u64)
    ensures
        trace_id_text(n) != trace_id_text(next_counter(n)),
        n < u64::MAX ==> hex_number(trace_id_text(next_counter(n)).subrange(1, 17))
            == hex_number(trace_id_text(n).subrange(1, 17)) + 1,
{
    lemma_trace_ids_distinct(n, next_counter(n));
    lemma_trace_id_number(next_counter(n));
}

/// A counter that starts at 0 gives "[0000000000000000]" first.
pub proof fn lemma_first_trace_id()
    ensures
        trace_id_text(0) == seq!['['] + Seq::new(16, |i: int| '0') + seq![']'],
{
    lemma_hex_digits_zero(16);
    assert(hex_digits(0, 16) =~= Seq::new(16, |i: int| '0'));
}

proof fn lemma_hex_digits_zero(k: nat)
    ensures
        hex_digits(0, k) == Seq::new(k, |i: int| '0'),
    decreases k,
{
    if k > 0 {
        lemma_hex_digits_zero((k - 1) as nat);
        assert(lower_hex_digit(0) == '0');
        assert(hex_digits(0, k) =~= Seq::new(k, |i: int| '0'));
    }
}

} // verus!
