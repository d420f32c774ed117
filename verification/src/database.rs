//! What the stores keep and how they read it back: record keys, which scanned keys belong to a
//! store, and the newest-first order in which records are returned.
use vstd::prelude::*;
use crate::text::{dec_int, push_decimal_i64, push_str};

verus! {

/// Represents a message document in the database.
#[derive(Debug, Clone)]
pub struct MessageDoc {
    pub content: String,
    pub source: String,
    pub timestamp: i64,
}

/// Represents a peer document in the database.
#[derive(Debug, Clone)]
pub struct PeerDoc {
    pub address: String,
    pub last_seen: i64,
}

/// Records ordered by a time stamp.
pub trait Stamped {
    /// The record's time stamp.
    spec fn stamp_of(&self) -> int;

    /// The record's time stamp.
    fn stamp(&self) -> (t: i64)
        ensures
            t == self.stamp_of();
}

impl Stamped for MessageDoc {
    open spec fn stamp_of(&self) -> int {
        self.timestamp as int
    }

    fn stamp(&self) -> (t: i64) {
        self.timestamp
    }
}

impl Stamped for PeerDoc {
    open spec fn stamp_of(&self) -> int {
        self.last_seen as int
    }

    fn stamp(&self) -> (t: i64) {
        self.last_seen
    }
}

/// Whether records are in newest-first order.
pub open spec fn newest_first<T: Stamped>(s: Seq<T>) -> bool {
    forall|i: int, j: int| 0 <= i < j < s.len() ==> s[i].stamp_of() >= s[j].stamp_of()
}

/// The records of `s` stamped `t`, in their order in `s`.
pub open spec fn stamped<T: Stamped>(s: Seq<T>, t: int) -> Seq<T> {
    s.filter(stamp_is(t))
}

/// Whether a record is stamped `t`.
pub open spec fn stamp_is<T: Stamped>(t: int) -> spec_fn(T) -> bool {
    |x: T| x.stamp_of() == t
}

/// `r` holds the records of `s`, newest first, and records with the same stamp keep the order
/// they had in `s`: the stable sort of `s` by descending stamp.
pub open spec fn stable_newest_first<T: Stamped>(s: Seq<T>, r: Seq<T>) -> bool {
    &&& newest_first(r)
    &&& forall|t: int| #[trigger] stamped(r, t) == stamped(s, t)
}

proof fn lemma_stamped_split<T: Stamped>(a: Seq<T>, b: Seq<T>, t: int)
    ensures
        stamped(a + b, t) == stamped(a, t) + stamped(b, t),
{
    reveal(Seq::filter);
    Seq::filter_distributes_over_add(a, b, stamp_is(t));
}

proof fn lemma_stamped_none<T: Stamped>(a: Seq<T>, t: int)
    requires
        forall|i: int| 0 <= i < a.len() ==> #[trigger] a[i].stamp_of() != t,
    ensures
        stamped(a, t) == Seq::<T>::empty(),
{
    a.lemma_all_neg_filter_empty(stamp_is(t));
}

proof fn lemma_stamped_single<T: Stamped>(x: T, t: int)
    ensures
        stamped(seq![x], t) == if x.stamp_of() == t { seq![x] } else { Seq::<T>::empty() },
{
    reveal(Seq::filter);
    assert(seq![x].drop_last() =~= Seq::<T>::empty());
    assert(seq![x].last() == x);
    assert(Seq::<T>::empty().filter(stamp_is(t)) =~= Seq::<T>::empty());
    assert(Seq::<T>::empty().push(x) =~= seq![x]);
}

/// Sorts records newest first, keeping the order of records with the same stamp.
pub fn sort_newest_first<T: Stamped>(items: Vec<T>) -> (r: Vec<T>)
    ensures
        stable_newest_first(items@, r@),
{
    let ghost all = items@;
    let mut rest = items;
    let mut r: Vec<T> = Vec::new();
    let mut done: usize = 0;
    let n = rest.len();
    proof {
        assert forall|t: int| #[trigger] stamped(r@, t) == stamped(all.take(0), t) by {
            lemma_stamped_none(r@, t);
            lemma_stamped_none(all.take(0), t);
        }
    }
    while done < n
        invariant
            n == all.len(),
            done <= n,
            rest@ == all.skip(done as int),
            newest_first(r@),
            forall|t: int| #[trigger] stamped(r@, t) == stamped(all.take(done as int), t),
        decreases n - done,
    {
        let x = rest.remove(0);
        let xs = x.stamp();
        let mut p: usize = 0;
        while p < r.len() && r[p].stamp() >= xs
            invariant
                p <= r@.len(),
                forall|i: int| 0 <= i < p ==> #[trigger] r@[i].stamp_of() >= xs,
            decreases r@.len() - p,
        {
            p = p + 1;
        }
        let ghost old_r = r@;
        let ghost pre = old_r.take(p as int);
        let ghost post = old_r.skip(p as int);
        proof {
            assert(old_r =~= pre + post);
            assert forall|i: int| 0 <= i < post.len() implies #[trigger] post[i].stamp_of() < xs by {
                if p < old_r.len() {
                    assert(old_r[p as int].stamp_of() < xs);
                    assert(old_r[p as int].stamp_of() >= old_r[p + i].stamp_of());
                }
            }
        }
        r.insert(p, x);
        proof {
            let new_r = r@;
            assert(new_r =~= pre + seq![x] + post);
            assert(all.take(done + 1) =~= all.take(done as int) + seq![x]);
            assert forall|t: int| #[trigger] stamped(new_r, t) == stamped(all.take(done + 1), t) by {
                lemma_stamped_split(pre + seq![x], post, t);
                lemma_stamped_split(pre, seq![x], t);
                lemma_stamped_split(pre, post, t);
                lemma_stamped_split(all.take(done as int), seq![x], t);
                lemma_stamped_single(x, t);
                if t == xs {
                    lemma_stamped_none(post, t);
                }
                assert(stamped(old_r, t) == stamped(all.take(done as int), t));
            }
            assert forall|i: int, j: int| 0 <= i < j < new_r.len() implies new_r[i].stamp_of() >= new_r[j].stamp_of() by {
                if j < p {
                } else if j == p {
                    assert(new_r[i] == old_r[i]);
                } else if i < p {
                    assert(new_r[j] == old_r[j - 1]);
                    assert(new_r[i] == old_r[i]);
                } else if i == p {
                    assert(new_r[j] == post[j - p - 1]);
                } else {
                    assert(new_r[j] == old_r[j - 1]);
                    assert(new_r[i] == old_r[i - 1]);
                }
            }
        }
        done = done + 1;
    }
    assert(all.take(n as int) =~= all);
    r
}

/// The peers last seen after `since`, in the order they were read.
pub open spec fn seen_after(peers: Seq<PeerDoc>, since: i64) -> Seq<PeerDoc> {
    peers.filter(|p: PeerDoc| p.last_seen > since)
}

/// The active peers among those read: the ones last seen after `since`, newest first, with peers
/// seen at the same time in the order they were read.
pub fn select_active_peers(peers: Vec<PeerDoc>, since: i64) -> (r: Vec<PeerDoc>)
    ensures
        stable_newest_first(seen_after(peers@, since), r@),
{
    let ghost all = peers@;
    let mut rest = peers;
    let mut kept: Vec<PeerDoc> = Vec::new();
    let mut done: usize = 0;
    let n = rest.len();
    assert(all.take(0).filter(|p: PeerDoc| p.last_seen > since) =~= Seq::<PeerDoc>::empty()) by {
        reveal(Seq::filter);
    }
    while done < n
        invariant
            n == all.len(),
            done <= n,
            rest@ == all.skip(done as int),
            kept@ == seen_after(all.take(done as int), since),
        decreases n - done,
    {
        let p = rest.remove(0);
        proof {
            reveal(Seq::filter);
            assert(all.take(done + 1).drop_last() =~= all.take(done as int));
            assert(all.take(done + 1).last() == p);
        }
        if p.last_seen > since {
            kept.push(p);
        }
        done = done + 1;
    }
    assert(all.take(n as int) =~= all);
    sort_newest_first(kept)
}

/// The messages stamped at or after `since`, in the order they were read.
pub open spec fn sent_since(messages: Seq<MessageDoc>, since: i64) -> Seq<MessageDoc> {
    messages.filter(|m: MessageDoc| m.timestamp >= since)
}

/// The messages since `since` among those read: the ones stamped at or after it, newest first,
/// with messages of the same time in the order they were read.
pub fn select_messages_since(messages: Vec<MessageDoc>, since: i64) -> (r: Vec<MessageDoc>)
    ensures
        stable_newest_first(sent_since(messages@, since), r@),
{
    let ghost all = messages@;
    let mut rest = messages;
    let mut kept: Vec<MessageDoc> = Vec::new();
    let mut done: usize = 0;
    let n = rest.len();
    assert(all.take(0).filter(|m: MessageDoc| m.timestamp >= since) =~= Seq::<MessageDoc>::empty()) by {
        reveal(Seq::filter);
    }
    while done < n
        invariant
            n == all.len(),
            done <= n,
            rest@ == all.skip(done as int),
            kept@ == sent_since(all.take(done as int), since),
        decreases n - done,
    {
        let m = rest.remove(0);
        proof {
            reveal(Seq::filter);
            assert(all.take(done + 1).drop_last() =~= all.take(done as int));
            assert(all.take(done + 1).last() == m);
        }
        if m.timestamp >= since {
            kept.push(m);
        }
        done = done + 1;
    }
    assert(all.take(n as int) =~= all);
    sort_newest_first(kept)
}

/// What a scan does with the entry it reached.
#[derive(Debug, Clone, Copy, PartialEq, Eq)]
pub enum ScanStep {
    /// The entry is a record of the store: read it.
    Take,
    /// The entry belongs to another store: pass over it.
    Skip,
    /// The entry belongs to another store: the scan is over.
    Stop,
}

/// The bytes of an ASCII text.
pub open spec fn ascii_bytes(s: Seq<char>) -> Seq<u8> {
    s.map_values(|c: char| c as u8)
}

/// Whether `key` begins with the bytes of `prefix`.
pub open spec fn has_prefix(key: Seq<u8>, prefix: Seq<u8>) -> bool {
    prefix.len() <= key.len() && key.subrange(0, prefix.len() as int) == prefix
}

fn bytes_start_with(key: &[u8], prefix: &[u8]) -> (b: bool)
    ensures
        b == has_prefix(key@, prefix@),
{
    if prefix.len() > key.len() {
        return false;
    }
    let mut i: usize = 0;
    while i < prefix.len()
        invariant
            prefix@.len() <= key@.len(),
            i <= prefix@.len(),
            forall|j: int| 0 <= j < i ==> key@[j] == prefix@[j],
        decreases prefix@.len() - i,
    {
        if key[i] != prefix[i] {
            assert(key@.subrange(0, prefix@.len() as int)[i as int] != prefix@[i as int]);
            return false;
        }
        i = i + 1;
    }
    assert(key@.subrange(0, prefix@.len() as int) =~= prefix@);
    true
}

/// The messages scan reads every key that begins with "message:" and passes over the others.
pub fn message_scan_step(key: &[u8]) -> (s: ScanStep)
    ensures
        has_prefix(key@, ascii_bytes("message:"@)) ==> s is Take,
        !has_prefix(key@, ascii_bytes("message:"@)) ==> s is Skip,
{
    let prefix: [u8; 8] = [109, 101, 115, 115, 97, 103, 101, 58];
    proof {
        reveal_strlit("message:");
        assert(prefix@ =~= ascii_bytes("message:"@));
    }
    if bytes_start_with(key, &prefix) { ScanStep::Take } else { ScanStep::Skip }
}

/// The peers scan reads keys that begin with "peer:" and ends at the first that does not.
pub fn peer_scan_step(key: &[u8]) -> (s: ScanStep)
    ensures
        has_prefix(key@, ascii_bytes("peer:"@)) ==> s is Take,
        !has_prefix(key@, ascii_bytes("peer:"@)) ==> s is Stop,
{
    let prefix: [u8; 5] = [112, 101, 101, 114, 58];
    proof {
        reveal_strlit("peer:");
        assert(prefix@ =~= ascii_bytes("peer:"@));
    }
    if bytes_start_with(key, &prefix) { ScanStep::Take } else { ScanStep::Stop }
}

/// The key of the message stored at `timestamp`: "message:" and the time in decimal.
pub fn message_key(timestamp: i64) -> (k: String)
    ensures
        k@ == "message:"@ + dec_int(timestamp as int),
{
    let mut k = String::new();
    push_str(&mut k, "message:");
    push_decimal_i64(&mut k, timestamp);
    assert(k@ =~= "message:"@ + dec_int(timestamp as int));
    k
}

/// The key of the peer at `address`: "peer:" and the address.
pub fn peer_key(address: &str) -> (k: String)
    ensures
        k@ == "peer:"@ + address@,
{
    let mut k = String::new();
    push_str(&mut k, "peer:");
    push_str(&mut k, address);
    assert(k@ =~= "peer:"@ + address@);
    k
}

/// The key of the account at `address`: "account:" and the address.
pub fn account_key(address: &str) -> (k: String)
    ensures
        k@ == "account:"@ + address@,
{
    let mut k = String::new();
    push_str(&mut k, "account:");
    push_str(&mut k, address);
    assert(k@ =~= "account:"@ + address@);
    k
}

} // verus!
