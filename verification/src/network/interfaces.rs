//! Reading the IPv4 addresses of the machine's interfaces from the output of `ip addr show`.
use vstd::prelude::*;
use crate::text::chars_of;

verus! {

/// The pieces of `s` between occurrences of `sep` (one more piece than separators).
pub open spec fn split_on(s: Seq<char>, sep: char) -> Seq<Seq<char>>
    decreases s.len(),
{
    if s.len() == 0 {
        seq![Seq::empty()]
    } else {
        let prev = split_on(s.drop_last(), sep);
        if s.last() == sep {
            prev.push(Seq::empty())
        } else {
            prev.update(prev.len() - 1, prev.last().push(s.last()))
        }
    }
}

/// Whether `c` is white space, as `char::is_whitespace` (Unicode White_Space) says.
pub open spec fn is_white(c: char) -> bool {
    ||| c == ' ' || c == '\t' || c == '\n' || c == '\x0B' || c == '\x0C' || c == '\r'
    ||| c == '\u{85}' || c == '\u{A0}' || c == '\u{1680}'
    ||| ('\u{2000}' <= c <= '\u{200A}')
    ||| c == '\u{2028}' || c == '\u{2029}' || c == '\u{202F}' || c == '\u{205F}' || c == '\u{3000}'
}

/// Scanning for words: the words completed so far and the word being read.
pub open spec fn word_scan(s: Seq<char>) -> (Seq<Seq<char>>, Seq<char>)
    decreases s.len(),
{
    if s.len() == 0 {
        (Seq::empty(), Seq::empty())
    } else {
        let (done, cur) = word_scan(s.drop_last());
        if is_white(s.last()) {
            if cur.len() > 0 { (done.push(cur), Seq::empty()) } else { (done, cur) }
        } else {
            (done, cur.push(s.last()))
        }
    }
}

/// The words of `s`: its maximal runs of non-white-space characters, as `split_whitespace` gives.
pub open spec fn words(s: Seq<char>) -> Seq<Seq<char>> {
    let (done, cur) = word_scan(s);
    if cur.len() > 0 { done.push(cur) } else { done }
}

/// Whether `pattern` occurs in `s`.
pub open spec fn contains_text(s: Seq<char>, pattern: Seq<char>) -> bool {
    exists|i: int| 0 <= i && i + pattern.len() <= s.len() && #[trigger] s.subrange(i, i + pattern.len()) == pattern
}

/// The value of a decimal octet: one to three digits, no leading zero unless it is "0", at most 255.
pub open spec fn octet_value(p: Seq<char>) -> Option<int> {
    if 1 <= p.len() <= 3 && (forall|i: int| 0 <= i < p.len() ==> '0' <= #[trigger] p[i] <= '9')
        && (p.len() == 1 || p[0] != '0') {
        let v = decimal_value(p);
        if v <= 255 { Some(v) } else { None }
    } else {
        None
    }
}

/// The value of a string of decimal digits.
pub open spec fn decimal_value(p: Seq<char>) -> int
    decreases p.len(),
{
    if p.len() == 0 { 0 } else { decimal_value(p.drop_last()) * 10 + ((p.last() as int) - 48) }
}

/// What `Ipv4Addr::from_str` gives: four octets separated by '.', and nothing else.
pub open spec fn parse_ipv4(s: Seq<char>) -> Option<Seq<u8>> {
    let parts = split_on(s, '.');
    if parts.len() == 4 && (forall|i: int| 0 <= i < 4 ==> #[trigger] octet_value(parts[i]) is Some) {
        Some(Seq::new(4, |i: int| octet_value(parts[i])->Some_0 as u8))
    } else {
        None
    }
}

/// The address a line of `ip addr show` reports: on a line holding "inet ", the second word up
/// to its first '/', when that is an IPv4 address.
pub open spec fn line_address(line: Seq<char>) -> Option<Seq<u8>> {
    if contains_text(line, "inet "@) && words(line).len() >= 2 {
        parse_ipv4(split_on(words(line)[1], '/')[0])
    } else {
        None
    }
}

/// The addresses that the lines report, in order.
pub open spec fn addresses_of_lines(lines: Seq<Seq<char>>) -> Seq<Seq<u8>>
    decreases lines.len(),
{
    if lines.len() == 0 {
        Seq::empty()
    } else {
        addresses_of_lines(lines.drop_last()) + match line_address(lines.last()) {
            Some(a) => seq![a],
            None => Seq::empty(),
        }
    }
}

/// The IPv4 addresses in the output of `ip addr show`, in order.
pub open spec fn interface_addresses(output: Seq<char>) -> Seq<Seq<u8>> {
    addresses_of_lines(split_on(output, '\n'))
}

/// The byte sequences of a list of addresses.
pub open spec fn address_views(v: Seq<[u8; 4]>) -> Seq<Seq<u8>> {
    v.map_values(|a: [u8; 4]| a@)
}

/// Splits `s` at every `sep`.
pub fn split_chars(s: &Vec<char>, sep: char) -> (r: Vec<Vec<char>>)
    ensures
        r@.len() == split_on(s@, sep).len(),
        forall|i: int| 0 <= i < r@.len() ==> #[trigger] r@[i]@ == split_on(s@, sep)[i],
{
    let mut done: Vec<Vec<char>> = Vec::new();
    let mut cur: Vec<char> = Vec::new();
    let mut i: usize = 0;
    assert(s@.take(0) =~= Seq::<char>::empty());
    while i < s.len()
        invariant
            i <= s@.len(),
            done@.len() + 1 == split_on(s@.take(i as int), sep).len(),
            forall|j: int| 0 <= j < done@.len() ==> #[trigger] done@[j]@ == split_on(s@.take(i as int), sep)[j],
            cur@ == split_on(s@.take(i as int), sep).last(),
        decreases s@.len() - i,
    {
        let c = s[i];
        let ghost prev = split_on(s@.take(i as int), sep);
        assert(s@.take(i + 1).drop_last() =~= s@.take(i as int));
        assert(s@.take(i + 1).last() == c);
        if c == sep {
            done.push(cur);
            cur = Vec::new();
        } else {
            cur.push(c);
        }
        i = i + 1;
        proof {
            let next = split_on(s@.take(i as int), sep);
            assert forall|j: int| 0 <= j < done@.len() implies #[trigger] done@[j]@ == next[j] by {
                if c != sep {
                    assert(next[j] == prev[j]);
                }
            }
        }
    }
    assert(s@.take(i as int) =~= s@);
    let ghost all = split_on(s@, sep);
    done.push(cur);
    proof {
        assert forall|j: int| 0 <= j < done@.len() implies #[trigger] done@[j]@ == all[j] by {
            if j == done@.len() - 1 {
                assert(all.last() == all[all.len() - 1]);
            }
        }
    }
    done
}

/// Whether `c` is white space, as `char::is_whitespace` says.
pub fn is_whitespace_char(c: char) -> (b: bool)
    ensures
        b == is_white(c),
{
    c == ' ' || c == '\t' || c == '\n' || c == '\x0B' || c == '\x0C' || c == '\r' || c == '\u{85}'
        || c == '\u{A0}' || c == '\u{1680}' || ('\u{2000}' <= c && c <= '\u{200A}') || c == '\u{2028}'
        || c == '\u{2029}' || c == '\u{202F}' || c == '\u{205F}' || c == '\u{3000}'
}

/// The words of `s`.
pub fn split_words(s: &Vec<char>) -> (r: Vec<Vec<char>>)
    ensures
        r@.len() == words(s@).len(),
        forall|i: int| 0 <= i < r@.len() ==> #[trigger] r@[i]@ == words(s@)[i],
{
    let mut done: Vec<Vec<char>> = Vec::new();
    let mut cur: Vec<char> = Vec::new();
    let mut i: usize = 0;
    assert(s@.take(0) =~= Seq::<char>::empty());
    while i < s.len()
        invariant
            i <= s@.len(),
            done@.len() == word_scan(s@.take(i as int)).0.len(),
            forall|j: int| 0 <= j < done@.len() ==> #[trigger] done@[j]@ == word_scan(s@.take(i as int)).0[j],
            cur@ == word_scan(s@.take(i as int)).1,
        decreases s@.len() - i,
    {
        let c = s[i];
        let ghost prev = word_scan(s@.take(i as int));
        assert(s@.take(i + 1).drop_last() =~= s@.take(i as int));
        assert(s@.take(i + 1).last() == c);
        if is_whitespace_char(c) {
            if cur.len() > 0 {
                done.push(cur);
                cur = Vec::new();
            }
        } else {
            cur.push(c);
        }
        i = i + 1;
        proof {
            let next = word_scan(s@.take(i as int));
            assert forall|j: int| 0 <= j < done@.len() implies #[trigger] done@[j]@ == next.0[j] by {
                if j < prev.0.len() {
                    assert(next.0[j] == prev.0[j]);
                }
            }
        }
    }
    assert(s@.take(i as int) =~= s@);
    if cur.len() > 0 {
        done.push(cur);
    }
    done
}

/// Whether `pattern` occurs in `s`.
pub fn contains_chars(s: &Vec<char>, pattern: &Vec<char>) -> (b: bool)
    ensures
        b == contains_text(s@, pattern@),
{
    let n = s.len();
    let m = pattern.len();
    if m > n {
        proof {
            if contains_text(s@, pattern@) {
                let i = choose|i: int| 0 <= i && i + pattern@.len() <= s@.len()
                    && #[trigger] s@.subrange(i, i + pattern@.len()) == pattern@;
            }
        }
        return false;
    }
    if m == 0 {
        assert(s@.subrange(0int, 0int + pattern@.len()) =~= pattern@);
        return true;
    }
    let mut i: usize = 0;
    while i <= n - m
        invariant
            m >= 1,
            n == s@.len(),
            m == pattern@.len(),
            m <= n,
            i <= n - m + 1,
            forall|k: int| 0 <= k < i ==> #[trigger] s@.subrange(k, k + m) != pattern@,
        decreases n - m + 1 - i,
    {
        let mut j: usize = 0;
        let mut same = true;
        while j < m
            invariant
                n == s@.len(),
                m == pattern@.len(),
                i + m <= n,
                j <= m,
                same ==> forall|k: int| 0 <= k < j ==> s@[i + k] == pattern@[k],
                !same ==> s@.subrange(i as int, i + m) != pattern@,
            decreases m - j,
        {
            if s[i + j] != pattern[j] {
                assert(s@.subrange(i as int, i + m)[j as int] == s@[i + j]);
                same = false;
                j = m;
            } else {
                j = j + 1;
            }
        }
        if same {
            assert(s@.subrange(i as int, i + m) =~= pattern@);
            return true;
        }
        i = i + 1;
    }
    proof {
        if contains_text(s@, pattern@) {
            let k = choose|k: int| 0 <= k && k + pattern@.len() <= s@.len()
                && #[trigger] s@.subrange(k, k + pattern@.len()) == pattern@;
            assert(s@.subrange(k, k + m) != pattern@);
        }
    }
    false
}

/// The value of an octet, if `p` is one.
pub fn parse_octet(p: &Vec<char>) -> (r: Option<u8>)
    ensures
        match octet_value(p@) {
            Some(v) => r is Some && r->Some_0 == v,
            None => r is None,
        },
{
    let n = p.len();
    if n < 1 || n > 3 {
        return None;
    }
    if n > 1 && p[0] == '0' {
        return None;
    }
    let mut v: u32 = 0;
    let mut i: usize = 0;
    assert(p@.take(0) =~= Seq::<char>::empty());
    while i < n
        invariant
            n == p@.len(),
            1 <= n <= 3,
            i <= n,
            forall|k: int| 0 <= k < i ==> '0' <= #[trigger] p@[k] <= '9',
            v == decimal_value(p@.take(i as int)),
            v < 1000,
            i == 0 ==> v == 0,
            i == 1 ==> v < 10,
            i == 2 ==> v < 100,
        decreases n - i,
    {
        let c = p[i];
        if !('0' <= c && c <= '9') {
            return None;
        }
        assert(p@.take(i + 1).drop_last() =~= p@.take(i as int));
        v = v * 10 + ((c as u32) - 48);
        i = i + 1;
    }
    assert(p@.take(n as int) =~= p@);
    if v > 255 {
        return None;
    }
    Some(v as u8)
}

/// The address `s` spells, if it is an IPv4 address.
pub fn parse_ipv4_chars(s: &Vec<char>) -> (r: Option<[u8; 4]>)
    ensures
        match parse_ipv4(s@) {
            Some(a) => r is Some && r->Some_0@ == a,
            None => r is None,
        },
{
    let parts = split_chars(s, '.');
    let ghost sp = split_on(s@, '.');
    if parts.len() != 4 {
        return None;
    }
    let mut out: [u8; 4] = [0; 4];
    let mut i: usize = 0;
    while i < 4
        invariant
            parts@.len() == 4,
            sp.len() == 4,
            sp == split_on(s@, '.'),
            forall|j: int| 0 <= j < 4 ==> #[trigger] parts@[j]@ == sp[j],
            i <= 4,
            forall|j: int| 0 <= j < i ==> #[trigger] octet_value(sp[j]) is Some && out@[j] == octet_value(sp[j])->Some_0,
        decreases 4 - i,
    {
        match parse_octet(&parts[i]) {
            Some(v) => {
                out[i] = v;
            },
            None => {
                assert(octet_value(sp[i as int]) is None);
                return None;
            },
        }
        i = i + 1;
    }
    proof {
        let a = Seq::new(4, |k: int| octet_value(sp[k])->Some_0 as u8);
        assert(out@ =~= a);
    }
    Some(out)
}

/// The address a line reports, if it reports one.
pub fn parse_line_address(line: &Vec<char>) -> (r: Option<[u8; 4]>)
    ensures
        match line_address(line@) {
            Some(a) => r is Some && r->Some_0@ == a,
            None => r is None,
        },
{
    let pattern: Vec<char> = vec!['i', 'n', 'e', 't', ' '];
    proof {
        reveal_strlit("inet ");
        assert(pattern@ =~= "inet "@);
    }
    if !contains_chars(line, &pattern) {
        return None;
    }
    let ws = split_words(line);
    if ws.len() < 2 {
        return None;
    }
    let pieces = split_chars(&ws[1], '/');
    assert(pieces@.len() >= 1) by {
        lemma_split_nonempty(words(line@)[1], '/');
    }
    parse_ipv4_chars(&pieces[0])
}

/// Splitting gives at least one piece.
pub proof fn lemma_split_nonempty(s: Seq<char>, sep: char)
    ensures
        split_on(s, sep).len() >= 1,
    decreases s.len(),
{
    if s.len() > 0 {
        lemma_split_nonempty(s.drop_last(), sep);
    }
}

/// The IPv4 addresses of the machine's interfaces, from the output of `ip addr show`: on each
/// line holding "inet ", the second word up to its first '/', when it is an IPv4 address.
pub fn get_network_interfaces(output: &str) -> (r: Vec<[u8; 4]>)
    ensures
        address_views(r@) == interface_addresses(output@),
{
    let chars = chars_of(output);
    let lines = split_chars(&chars, '\n');
    let ghost ls = split_on(output@, '\n');
    let mut r: Vec<[u8; 4]> = Vec::new();
    let mut i: usize = 0;
    assert(ls.take(0) =~= Seq::<Seq<char>>::empty());
    while i < lines.len()
        invariant
            chars@ == output@,
            ls == split_on(output@, '\n'),
            lines@.len() == ls.len(),
            forall|j: int| 0 <= j < lines@.len() ==> #[trigger] lines@[j]@ == ls[j],
            i <= lines@.len(),
            address_views(r@) == addresses_of_lines(ls.take(i as int)),
        decreases lines@.len() - i,
    {
        assert(ls.take(i + 1).drop_last() =~= ls.take(i as int));
        assert(ls.take(i + 1).last() == ls[i as int]);
        match parse_line_address(&lines[i]) {
            Some(a) => {
                r.push(a);
                assert(address_views(r@) =~= addresses_of_lines(ls.take(i + 1)));
            },
            None => {
                assert(address_views(r@) =~= addresses_of_lines(ls.take(i + 1)));
            },
        }
        i = i + 1;
    }
    assert(ls.take(i as int) =~= ls);
    r
}

} // verus!
