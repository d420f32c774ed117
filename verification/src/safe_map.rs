//! A string-keyed map whose readers always see the state left by the last completed write.
use vstd::prelude::*;
use crate::string_map::StringMap;

verus! {

/// The map that results from inserting `entries` into `m` one after another, first to last.
pub open spec fn insert_all<V>(m: Map<Seq<char>, V>, entries: Seq<(String, V)>) -> Map<Seq<char>, V>
    decreases entries.len(),
{
    if entries.len() == 0 {
        m
    } else {
        insert_all(m, entries.drop_last()).insert(entries.last().0@, entries.last().1)
    }
}

/// A map that serves reads from the state of the last completed write.
pub struct SafeMap<V> {
    internal_map: StringMap<V>,
}

impl<V> View for SafeMap<V> {
    type V = Map<Seq<char>, V>;

    closed spec fn view(&self) -> Map<Seq<char>, V> {
        self.internal_map@
    }
}

impl<V: Clone> Clone for SafeMap<V> {
    /// A copy with the same keys, each value cloned.
    fn clone(&self) -> (r: Self)
        ensures
            r@.dom() == self@.dom(),
            forall|k: Seq<char>| #[trigger] r@.dom().contains(k) ==> cloned::<V>(self@[k], r@[k]),
            self.wf() ==> r.wf(),
    {
        SafeMap { internal_map: self.internal_map.clone() }
    }
}

impl<V> SafeMap<V> {
    /// Well-formedness of the underlying entries.
    pub closed spec fn wf(self) -> bool {
        self.internal_map.wf()
    }

    /// Creates a new empty map.
    pub fn new() -> (m: Self)
        ensures
            m.wf(),
            m@ == Map::<Seq<char>, V>::empty(),
    {
        SafeMap { internal_map: StringMap::new() }
    }

    /// Creates a new empty map; the capacity is a hint that does not change what the map holds.
    pub fn with_capacity(capacity: usize) -> (m: Self)
        ensures
            m.wf(),
            m@ == Map::<Seq<char>, V>::empty(),
    {
        let _ = capacity;
        SafeMap { internal_map: StringMap::new() }
    }

    /// The map as readers see it.
    pub fn readonly(&self) -> (r: &StringMap<V>)
        requires
            self.wf(),
        ensures
            r.wf(),
            r@ == self@,
    {
        &self.internal_map
    }

    /// The map as it stands, for operations that need more than a lookup.
    pub fn read(&self) -> (r: &StringMap<V>)
        requires
            self.wf(),
        ensures
            r.wf(),
            r@ == self@,
    {
        &self.internal_map
    }

    /// Inserts a key-value pair and hands back the value it replaces, if any.
    pub fn insert(&mut self, key: String, value: V) -> (r: Option<V>)
        requires
            old(self).wf(),
        ensures
            final(self).wf(),
            final(self)@ == old(self)@.insert(key@, value),
            match r {
                Some(v) => old(self)@.dom().contains(key@) && v == old(self)@[key@],
                None => !old(self)@.dom().contains(key@),
            },
    {
        self.internal_map.insert(key, value)
    }

    /// Removes a key and hands back its value, if it had one.
    pub fn remove(&mut self, key: &str) -> (r: Option<V>)
        requires
            old(self).wf(),
        ensures
            final(self).wf(),
            final(self)@ == old(self)@.remove(key@),
            match r {
                Some(v) => old(self)@.dom().contains(key@) && v == old(self)@[key@],
                None => !old(self)@.dom().contains(key@),
            },
    {
        self.internal_map.remove(key)
    }

    /// Removes every key-value pair.
    pub fn clear(&mut self)
        requires
            old(self).wf(),
        ensures
            final(self).wf(),
            final(self)@ == Map::<Seq<char>, V>::empty(),
    {
        self.internal_map.clear()
    }

    /// Inserts every entry, first to last, as one update.
    pub fn update_many(&mut self, entries: Vec<(String, V)>)
        requires
            old(self).wf(),
        ensures
            final(self).wf(),
            final(self)@ == insert_all(old(self)@, entries@),
    {
        let ghost start = self@;
        let ghost all = entries@;
        let mut rest = entries;
        let mut done: usize = 0;
        let n = rest.len();
        assert(all.take(0) =~= Seq::<(String, V)>::empty());
        while done < n
            invariant
                self.wf(),
                n == all.len(),
                done <= n,
                rest@ == all.skip(done as int),
                self@ == insert_all(start, all.take(done as int)),
            decreases n - done,
        {
            let (key, value) = rest.remove(0);
            proof {
                assert(all.take(done + 1).drop_last() =~= all.take(done as int));
                assert(all.take(done + 1).last() == all[done as int]);
                assert(rest@ =~= all.skip(done + 1));
            }
            self.internal_map.insert(key, value);
            done = done + 1;
        }
        assert(all.take(n as int) =~= all);
    }
}

impl<V> Default for SafeMap<V> {
    fn default() -> (m: Self)
        ensures
            m.wf(),
            m@ == Map::<Seq<char>, V>::empty(),
    {
        Self::new()
    }
}

/// What a read gives back after a write: the value just inserted, and the other keys untouched.
pub proof fn lemma_read_after_insert<V>(before: Map<Seq<char>, V>, after: Map<Seq<char>, V>, key: Seq<char>, value: V, other: Seq<char>)
    requires
        after == before.insert(key, value),
    ensures
        after.dom().contains(key),
        after[key] == value,
        other != key ==> (after.dom().contains(other) == before.dom().contains(other)),
        other != key && before.dom().contains(other) ==> after[other] == before[other],
{
}

/// A removed key is gone, and removing it again changes nothing.
pub proof fn lemma_remove_is_idempotent<V>(before: Map<Seq<char>, V>, key: Seq<char>)
    ensures
        !before.remove(key).dom().contains(key),
        before.remove(key).remove(key) == before.remove(key),
{
    assert(before.remove(key).remove(key) =~= before.remove(key));
}

} // verus!
