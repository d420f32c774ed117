//! A map keyed by strings, kept as a list of entries whose keys are pairwise distinct.
use vstd::prelude::*;
use crate::text::string_views;

verus! {

/// In a sequence without duplicates, `index_of` finds the one position that holds an element.
pub proof fn lemma_index_of_unique<A>(s: Seq<A>, j: int)
    requires
        s.no_duplicates(),
        0 <= j < s.len(),
    ensures
        s.index_of(s[j]) == j,
{
    assert(s.contains(s[j]));
    let i = s.index_of(s[j]);
    assert(0 <= i < s.len() && s[i] == s[j]);
}

/// A finite map from strings to values.
pub struct StringMap<V> {
    entries: Vec<(String, V)>,
}

impl<V> StringMap<V> {
    /// The keys, in the order in which the entries are stored.
    pub closed spec fn key_seq(self) -> Seq<Seq<char>> {
        self.entries@.map_values(|e: (String, V)| e.0@)
    }

    /// Well-formedness: no key occurs twice.
    pub closed spec fn wf(self) -> bool {
        self.key_seq().no_duplicates()
    }

    /// The map's contents.
    pub closed spec fn contents(self) -> Map<Seq<char>, V> {
        Map::new(
            |k: Seq<char>| self.key_seq().contains(k),
            |k: Seq<char>| self.entries@[self.key_seq().index_of(k)].1,
        )
    }

    proof fn lemma_entry(self, i: int)
        requires
            self.wf(),
            0 <= i < self.entries@.len(),
        ensures
            self.contents().dom().contains(self.entries@[i].0@),
            self.contents()[self.entries@[i].0@] == self.entries@[i].1,
    {
        assert(self.key_seq()[i] == self.entries@[i].0@);
        lemma_index_of_unique(self.key_seq(), i);
    }

    proof fn lemma_len(self)
        requires
            self.wf(),
        ensures
            self.contents().dom().finite(),
            self.contents().len() == self.entries@.len(),
    {
        assert(self.contents().dom() =~= self.key_seq().to_set());
        self.key_seq().unique_seq_to_set();
    }

    /// An empty map.
    pub fn new() -> (m: Self)
        ensures
            m.wf(),
            m@ == Map::<Seq<char>, V>::empty(),
    {
        let m = StringMap { entries: Vec::new() };
        assert(m.contents() =~= Map::<Seq<char>, V>::empty());
        m
    }

    /// The position of `key` among the entries, if it is there.
    fn find(&self, key: &str) -> (r: Option<usize>)
        requires
            self.wf(),
        ensures
            match r {
                Some(i) => i < self.entries@.len() && self.entries@[i as int].0@ == key@,
                None => !self@.dom().contains(key@),
            },
    {
                let key_owned = key.to_owned();
        let mut i: usize = 0;
        while i < self.entries.len()
            invariant
                i <= self.entries@.len(),
                key_owned@ == key@,
                forall|j: int| 0 <= j < i ==> self.entries@[j].0@ != key@,
            decreases self.entries@.len() - i,
        {
            if self.entries[i].0 == key_owned {
                return Some(i);
            }
            i = i + 1;
        }
        proof {
            if self.key_seq().contains(key@) {
                let j = choose|j: int| 0 <= j < self.key_seq().len() && self.key_seq()[j] == key@;
                assert(self.entries@[j].0@ == key@);
            }
        }
        None
    }

    /// The number of entries.
    pub fn len(&self) -> (n: usize)
        requires
            self.wf(),
        ensures
            n == self@.len(),
            self@.dom().finite(),
    {
        proof {
                        self.lemma_len();
        }
        self.entries.len()
    }

    /// Whether the map has no entries.
    pub fn is_empty(&self) -> (b: bool)
        requires
            self.wf(),
        ensures
            b == (self@.len() == 0),
            self@.dom().finite(),
            b <==> self@ == Map::<Seq<char>, V>::empty(),
    {
        proof {
                        self.lemma_len();
            if self.entries@.len() == 0 {
                assert(self.contents() =~= Map::<Seq<char>, V>::empty());
            }
            if self.contents() == Map::<Seq<char>, V>::empty() {
                assert(self.contents().dom() =~= Set::<Seq<char>>::empty());
            }
        }
        self.entries.len() == 0
    }

    /// Whether `key` has an entry.
    pub fn contains_key(&self, key: &str) -> (b: bool)
        requires
            self.wf(),
        ensures
            b == self@.dom().contains(key@),
    {
                match self.find(key) {
            Some(i) => {
                proof { self.lemma_entry(i as int); }
                true
            },
            None => false,
        }
    }

    /// The value stored under `key`, if any.
    pub fn get(&self, key: &str) -> (r: Option<&V>)
        requires
            self.wf(),
        ensures
            match r {
                Some(v) => self@.dom().contains(key@) && *v == self@[key@],
                None => !self@.dom().contains(key@),
            },
    {
                match self.find(key) {
            Some(i) => {
                proof { self.lemma_entry(i as int); }
                Some(&self.entries[i].1)
            },
            None => None,
        }
    }

    /// Stores `value` under `key` and hands back the value it replaces, if any.
    pub fn insert(&mut self, key: String, value: V) -> (r: Option<V>)
        requires
            old(self).wf(),
        ensures
            final(self).wf(),
            final(self)@ == old(self)@.insert(key@, value),
            match r {
                Some(v) => old(self)@.dom().contains(key@) && v == old(self)@[key@],
                None => !old(self)@.dom().contains(key@),
            },
    {
        let previous = self.remove(key.as_str());
                let ghost before = *self;
        self.entries.push((key, value));
        proof {
            let ks = self.key_seq();
            assert(ks =~= before.key_seq().push(key@));
            assert(!before@.dom().contains(key@));
            assert(!before.key_seq().contains(key@));
            assert forall|i: int, j: int| 0 <= i < ks.len() && 0 <= j < ks.len() && i != j
                implies ks[i] != ks[j] by {
                if i < before.key_seq().len() && j < before.key_seq().len() {
                } else if i == before.key_seq().len() {
                    assert(before.key_seq()[j] == ks[j]);
                } else {
                    assert(before.key_seq()[i] == ks[i]);
                }
            }
            assert(ks[ks.len() - 1] == key@);
            assert forall|k: Seq<char>| #[trigger] self.contents().dom().contains(k)
                implies before.contents().insert(key@, value).dom().contains(k)
                    && self.contents()[k] == before.contents().insert(key@, value)[k] by {
                if k == key@ {
                    lemma_index_of_unique(ks, ks.len() - 1);
                } else {
                    let j = ks.index_of(k);
                    assert(0 <= j < ks.len() && ks[j] == k);
                    assert(j < before.key_seq().len());
                    assert(before.key_seq()[j] == k);
                    lemma_index_of_unique(before.key_seq(), j);
                    lemma_index_of_unique(ks, j);
                }
            }
            assert forall|k: Seq<char>| before.contents().insert(key@, value).dom().contains(k)
                implies #[trigger] self.contents().dom().contains(k) by {
                if k != key@ {
                    let j = before.key_seq().index_of(k);
                    assert(0 <= j < before.key_seq().len() && before.key_seq()[j] == k);
                    assert(ks[j] == k);
                }
            }
            assert(self.contents() =~= before.contents().insert(key@, value));
        }
        previous
    }

    /// Removes the entry of `key` and hands back its value, if there was one.
    pub fn remove(&mut self, key: &str) -> (r: Option<V>)
        requires
            old(self).wf(),
        ensures
            final(self).wf(),
            final(self)@ == old(self)@.remove(key@),
            match r {
                Some(v) => old(self)@.dom().contains(key@) && v == old(self)@[key@],
                None => !old(self)@.dom().contains(key@),
            },
    {
                match self.find(key) {
            None => {
                assert(self.contents() =~= self.contents().remove(key@));
                None
            },
            Some(i) => {
                let ghost before = *self;
                proof { before.lemma_entry(i as int); }
                let (_k, v) = self.entries.remove(i);
                proof {
                    let ks = self.key_seq();
                    let bs = before.key_seq();
                    assert(ks =~= bs.remove(i as int));
                    assert forall|a: int, b: int| 0 <= a < ks.len() && 0 <= b < ks.len() && a != b
                        implies ks[a] != ks[b] by {
                        let a2 = if a < i { a } else { a + 1 };
                        let b2 = if b < i { b } else { b + 1 };
                        assert(ks[a] == bs[a2] && ks[b] == bs[b2]);
                    }
                    assert(bs[i as int] == key@);
                    assert forall|k: Seq<char>| #[trigger] self.contents().dom().contains(k)
                        implies before.contents().remove(key@).dom().contains(k)
                            && self.contents()[k] == before.contents()[k] by {
                        let j = ks.index_of(k);
                        assert(0 <= j < ks.len() && ks[j] == k);
                        let j2 = if j < i { j } else { j + 1 };
                        assert(bs[j2] == k);
                        assert(j2 != i);
                        lemma_index_of_unique(bs, j2);
                    }
                    assert forall|k: Seq<char>| before.contents().remove(key@).dom().contains(k)
                        implies #[trigger] self.contents().dom().contains(k) by {
                        let j = bs.index_of(k);
                        assert(0 <= j < bs.len() && bs[j] == k);
                        assert(j != i);
                        let j2 = if j < i { j } else { j - 1 };
                        assert(ks[j2] == k);
                    }
                    assert(self.contents() =~= before.contents().remove(key@));
                }
                Some(v)
            },
        }
    }

    /// Removes every entry.
    pub fn clear(&mut self)
        requires
            old(self).wf(),
        ensures
            final(self).wf(),
            final(self)@ == Map::<Seq<char>, V>::empty(),
    {
        self.entries = Vec::new();
        assert(self.contents() =~= Map::<Seq<char>, V>::empty());
    }

    /// The keys, each once, in the order in which they are stored.
    pub fn keys(&self) -> (r: Vec<String>)
        requires
            self.wf(),
        ensures
            r@.len() == self@.len(),
            string_views(r@).no_duplicates(),
            string_views(r@).to_set() == self@.dom(),
    {
        proof {
                        self.lemma_len();
        }
        let mut r: Vec<String> = Vec::new();
        let mut i: usize = 0;
        while i < self.entries.len()
            invariant
                i <= self.entries@.len(),
                r@.len() == i,
                forall|j: int| 0 <= j < i ==> #[trigger] r@[j]@ == self.entries@[j].0@,
            decreases self.entries@.len() - i,
        {
            r.push(self.entries[i].0.clone());
            i = i + 1;
        }
        proof {
            assert(string_views(r@) =~= self.key_seq());
            assert(self.key_seq().to_set() =~= self.contents().dom());
        }
        r
    }
}

impl<V: Clone> Clone for StringMap<V> {
    /// A copy with the same keys, each value cloned.
    fn clone(&self) -> (r: Self)
        ensures
            r@.dom() == self@.dom(),
            forall|k: Seq<char>| #[trigger] r@.dom().contains(k) ==> cloned::<V>(self@[k], r@[k]),
            self.wf() ==> r.wf(),
    {
        let mut entries: Vec<(String, V)> = Vec::new();
        let mut i: usize = 0;
        while i < self.entries.len()
            invariant
                i <= self.entries@.len(),
                entries@.len() == i,
                forall|j: int| 0 <= j < i ==> #[trigger] entries@[j].0@ == self.entries@[j].0@,
                forall|j: int| 0 <= j < i ==> cloned::<V>(self.entries@[j].1, #[trigger] entries@[j].1),
            decreases self.entries@.len() - i,
        {
            let key = self.entries[i].0.clone();
            let value = self.entries[i].1.clone();
            entries.push((key, value));
            i = i + 1;
        }
        let r = StringMap { entries };
        proof {
            assert(r.key_seq() =~= self.key_seq());
            assert(r.contents().dom() =~= self.contents().dom());
            assert forall|k: Seq<char>| #[trigger] r.contents().dom().contains(k)
                implies cloned::<V>(self.contents()[k], r.contents()[k]) by {
                let j = self.key_seq().index_of(k);
                assert(self.key_seq().contains(k));
                assert(0 <= j < self.key_seq().len());
            }
        }
        r
    }
}

impl<V> View for StringMap<V> {
    type V = Map<Seq<char>, V>;

    closed spec fn view(&self) -> Map<Seq<char>, V> {
        self.contents()
    }
}

} // verus!
