//! Text building blocks: decimal and hexadecimal renderings, character access, prefixes.
use vstd::prelude::*;
use vstd::string::StrSliceExecFns;

verus! {

/// Appending one character to a `String` extends its character sequence by that character.
pub assume_specification[ String::push ](s: &mut String, ch: char)
    ensures
        final(s)@ == old(s)@.push(ch),
;

/// The character of a decimal digit `d` (0 to 9).
pub open spec fn digit_char(d: int) -> char {
    if d == 0 { '0' } else if d == 1 { '1' } else if d == 2 { '2' } else if d == 3 { '3' }
    else if d == 4 { '4' } else if d == 5 { '5' } else if d == 6 { '6' } else if d == 7 { '7' }
    else if d == 8 { '8' } else { '9' }
}

/// The decimal rendering of a natural number, without leading zeros ("0" for zero).
pub open spec fn dec_nat(n: nat) -> Seq<char>
    decreases n,
{
    if n < 10 {
        seq![digit_char(n as int)]
    } else {
        dec_nat(n / 10).push(digit_char((n % 10) as int))
    }
}

/// The decimal rendering of an integer, with a leading '-' when it is negative.
pub open spec fn dec_int(i: int) -> Seq<char> {
    if i < 0 { seq!['-'] + dec_nat((-i) as nat) } else { dec_nat(i as nat) }
}

/// The character sequences of a sequence of strings.
pub open spec fn string_views(v: Seq<String>) -> Seq<Seq<char>> {
    v.map_values(|s: String| s@)
}

/// The decimal digit character for `d`.
pub fn digit_to_char(d: u64) -> (c: char)
    requires
        d < 10,
    ensures
        c == digit_char(d as int),
{
    if d == 0 { '0' } else if d == 1 { '1' } else if d == 2 { '2' } else if d == 3 { '3' }
    else if d == 4 { '4' } else if d == 5 { '5' } else if d == 6 { '6' } else if d == 7 { '7' }
    else if d == 8 { '8' } else { '9' }
}

/// Appends the decimal rendering of `n` to `out`.
pub fn push_decimal_u64(out: &mut String, n: u64)
    ensures
        final(out)@ == old(out)@ + dec_nat(n as nat),
    decreases n,
{
    if n < 10 {
        out.push(digit_to_char(n));
        assert(dec_nat(n as nat) =~= seq![digit_char(n as int)]);
    } else {
        push_decimal_u64(out, n / 10);
        out.push(digit_to_char(n % 10));
        assert(dec_nat(n as nat) == dec_nat((n / 10) as nat).push(digit_char((n % 10) as int)));
    }
}

/// The decimal rendering of `n`, as `format!("{}", n)` writes it.
pub fn u64_to_decimal(n: u64) -> (s: String)
    ensures
        s@ == dec_nat(n as nat),
{
    let mut s = String::new();
    push_decimal_u64(&mut s, n);
    assert(s@ =~= dec_nat(n as nat));
    s
}

/// Appends the decimal rendering of the signed `n` to `out`.
pub fn push_decimal_i64(out: &mut String, n: i64)
    ensures
        final(out)@ == old(out)@ + dec_int(n as int),
{
    if n < 0 {
        out.push('-');
        let magnitude: u64 = if n == i64::MIN {
            9223372036854775808u64
        } else {
            (-n) as u64
        };
        push_decimal_u64(out, magnitude);
        assert(old(out)@.push('-') + dec_nat(magnitude as nat) =~= old(out)@ + (seq!['-'] + dec_nat(magnitude as nat)));
    } else {
        push_decimal_u64(out, n as u64);
    }
}

/// The decimal rendering of the signed `n`, as `format!("{}", n)` writes it.
pub fn i64_to_decimal(n: i64) -> (s: String)
    ensures
        s@ == dec_int(n as int),
{
    let mut s = String::new();
    push_decimal_i64(&mut s, n);
    assert(s@ =~= dec_int(n as int));
    s
}

/// Whether two string slices hold the same characters.
pub fn str_eq(a: &str, b: &str) -> (r: bool)
    ensures
        r == (a@ == b@),
{
    let a_owned = a.to_owned();
    let b_owned = b.to_owned();
    a_owned == b_owned
}

/// The characters of `s`, in order.
pub fn chars_of(s: &str) -> (v: Vec<char>)
    ensures
        v@ == s@,
{
    let n = s.unicode_len();
    let mut v: Vec<char> = Vec::new();
    let mut i: usize = 0;
    while i < n
        invariant
            n == s@.len(),
            i <= n,
            v@ == s@.subrange(0, i as int),
        decreases n - i,
    {
        let c = s.get_char(i);
        v.push(c);
        i = i + 1;
        assert(v@ =~= s@.subrange(0, i as int));
    }
    assert(v@ =~= s@);
    v
}

/// The string made of `chars[lo..hi]`.
pub fn string_from_chars(chars: &Vec<char>, lo: usize, hi: usize) -> (s: String)
    requires
        lo <= hi <= chars@.len(),
    ensures
        s@ == chars@.subrange(lo as int, hi as int),
{
    let mut s = String::new();
    let mut i: usize = lo;
    while i < hi
        invariant
            lo <= i <= hi,
            hi <= chars@.len(),
            s@ == chars@.subrange(lo as int, i as int),
        decreases hi - i,
    {
        s.push(chars[i]);
        i = i + 1;
        assert(s@ =~= chars@.subrange(lo as int, i as int));
    }
    s
}

/// Appends `t` to `s`.
pub fn push_str(s: &mut String, t: &str)
    ensures
        final(s)@ == old(s)@ + t@,
{
    let chars = chars_of(t);
    let mut i: usize = 0;
    let ghost start = s@;
    while i < chars.len()
        invariant
            i <= chars@.len(),
            chars@ == t@,
            s@ == start + t@.subrange(0, i as int),
        decreases chars@.len() - i,
    {
        s.push(chars[i]);
        i = i + 1;
        assert(s@ =~= start + t@.subrange(0, i as int));
    }
    assert(t@.subrange(0, i as int) =~= t@);
}

/// The character sequence of an optional string.
pub open spec fn opt_view(o: Option<String>) -> Option<Seq<char>> {
    match o {
        Some(s) => Some(s@),
        None => None,
    }
}

/// The concatenation of `a` and `b`.
pub fn concat(a: &str, b: &str) -> (s: String)
    ensures
        s@ == a@ + b@,
{
    let mut s = String::new();
    push_str(&mut s, a);
    push_str(&mut s, b);
    assert(s@ =~= a@ + b@);
    s
}

/// `a`, a space, and `b`.
pub fn join_spaced(a: &str, b: &str) -> (s: String)
    ensures
        s@ == a@ + seq![' '] + b@,
{
    let mut s = String::new();
    push_str(&mut s, a);
    s.push(' ');
    push_str(&mut s, b);
    assert(s@ =~= a@ + seq![' '] + b@);
    s
}

/// `s` with every occurrence of `from`, found left to right without overlaps, replaced by `to`.
pub open spec fn replace_all(s: Seq<char>, from: Seq<char>, to: Seq<char>) -> Seq<char>
    decreases s.len(),
{
    if s.len() == 0 {
        Seq::empty()
    } else if 0 < from.len() <= s.len() && s.subrange(0, from.len() as int) == from {
        to + replace_all(s.skip(from.len() as int), from, to)
    } else {
        seq![s[0]] + replace_all(s.skip(1), from, to)
    }
}

/// `s` with every occurrence of `from` replaced by `to`, as `str::replace` does.
pub fn replace(s: &str, from: &str, to: &str) -> (r: String)
    requires
        from@.len() > 0,
    ensures
        r@ == replace_all(s@, from@, to@),
{
    let sc = chars_of(s);
    let fc = chars_of(from);
    let n = sc.len();
    let m = fc.len();
    let mut out = String::new();
    let mut i: usize = 0;
    assert(s@.skip(0) =~= s@);
    while i < n
        invariant
            sc@ == s@,
            fc@ == from@,
            n == s@.len(),
            m == from@.len(),
            m > 0,
            i <= n,
            out@ + replace_all(s@.skip(i as int), from@, to@) == replace_all(s@, from@, to@),
        decreases n - i,
    {
        let ghost rest = s@.skip(i as int);
        let mut matched = m <= n - i;
        let mut j: usize = 0;
        while matched && j < m
            invariant
                sc@ == s@,
                fc@ == from@,
                n == s@.len(),
                m == from@.len(),
                i <= n,
                j <= m,
                matched ==> m <= n - i,
                matched ==> forall|k: int| 0 <= k < j ==> s@[i + k] == from@[k],
                !matched ==> !(m <= rest.len() && rest.subrange(0, m as int) == from@),
                rest == s@.skip(i as int),
            decreases m - j,
        {
            if sc[i + j] != fc[j] {
                assert(rest.subrange(0, m as int)[j as int] == s@[i + j]);
                matched = false;
                j = m;
            } else {
                j = j + 1;
            }
        }
        if matched {
            assert(rest.subrange(0, m as int) =~= from@);
            push_str(&mut out, to);
            assert(rest.skip(m as int) =~= s@.skip(i + m));
            i = i + m;
        } else {
            out.push(sc[i]);
            assert(rest.skip(1) =~= s@.skip(i + 1));
            assert(rest[0] == sc@[i as int]);
            i = i + 1;
        }
    }
    assert(s@.skip(n as int) =~= Seq::<char>::empty());
    assert(out@ =~= replace_all(s@, from@, to@));
    out
}

/// Whether `s` begins with `prefix`.
pub fn starts_with(s: &str, prefix: &str) -> (b: bool)
    ensures
        b == (prefix@.len() <= s@.len() && s@.subrange(0, prefix@.len() as int) == prefix@),
{
    let sc = chars_of(s);
    let pc = chars_of(prefix);
    if pc.len() > sc.len() {
        return false;
    }
    let mut i: usize = 0;
    while i < pc.len()
        invariant
            pc@ == prefix@,
            sc@ == s@,
            pc@.len() <= sc@.len(),
            i <= pc@.len(),
            forall|j: int| 0 <= j < i ==> sc@[j] == pc@[j],
        decreases pc@.len() - i,
    {
        if sc[i] != pc[i] {
            assert(s@.subrange(0, prefix@.len() as int)[i as int] != prefix@[i as int]);
            return false;
        }
        i = i + 1;
    }
    assert(s@.subrange(0, prefix@.len() as int) =~= prefix@);
    true
}

} // verus!
