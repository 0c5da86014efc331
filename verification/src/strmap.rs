//! A small map keyed by strings, kept as an ordered list of distinct keys.

use vstd::prelude::*;
use crate::text::str_eq;

verus! {

/// The key sequence of an entry list.
pub open spec fn keys_of<V>(s: Seq<(String, V)>) -> Seq<Seq<char>> {
    Seq::new(s.len(), |i: int| s[i].0@)
}

/// The map that an entry list with distinct keys stands for.
pub open spec fn entries_map<V: View>(s: Seq<(String, V)>) -> Map<Seq<char>, V::V> {
    Map::new(
        |k: Seq<char>| keys_of(s).contains(k),
        |k: Seq<char>| s[keys_of(s).index_of(k)].1@,
    )
}

/// A finite map from strings to values.
///
/// Keys are distinct; entries keep the order in which keys were first
/// inserted, so iteration is deterministic.
#[derive(Debug)]
pub struct StringMap<V> {
    entries: Vec<(String, V)>,
}

impl<V: View> View for StringMap<V> {
    type V = Map<Seq<char>, V::V>;

    closed spec fn view(&self) -> Map<Seq<char>, V::V> {
        entries_map(self.entries@)
    }
}

/// In a list with distinct keys, the map holds entry `i`'s value under its key.
pub proof fn lemma_entry_in_map<V: View>(s: Seq<(String, V)>, i: int)
    requires
        keys_of(s).no_duplicates(),
        0 <= i < s.len(),
    ensures
        entries_map(s).dom().contains(s[i].0@),
        entries_map(s)[s[i].0@] == s[i].1@,
        keys_of(s).index_of(s[i].0@) == i,
{
    let ks = keys_of(s);
    assert(ks[i] == s[i].0@);
    assert(ks.contains(s[i].0@));
    let j = ks.index_of(s[i].0@);
    assert(0 <= j < ks.len() && ks[j] == s[i].0@);
}

impl<V> StringMap<V> {
    #[verifier::type_invariant]
    spec fn distinct_keys(self) -> bool {
        keys_of(self.entries@).no_duplicates()
    }
}

impl<V: View> StringMap<V> {
    /// The entries in insertion order, keys by their characters.
    pub closed spec fn entry_seq(&self) -> Seq<(Seq<char>, V::V)> {
        Seq::new(self.entries@.len(), |i: int| (self.entries@[i].0@, self.entries@[i].1@))
    }

    /// Creates an empty map.
    pub fn new() -> (r: Self)
        ensures
            r@ == Map::<Seq<char>, V::V>::empty(),
            r.entry_seq() == Seq::<(Seq<char>, V::V)>::empty(),
    {
        let r = StringMap { entries: Vec::new() };
        assert(r@ =~= Map::<Seq<char>, V::V>::empty());
        assert(r.entry_seq() =~= Seq::<(Seq<char>, V::V)>::empty());
        r
    }

    /// The index of `key` among the entries, if present.
    fn find(&self, key: &str) -> (r: Option<usize>)
        ensures
            match r {
                Some(i) => i < self.entries@.len() && self.entries@[i as int].0@ == key@,
                None => !keys_of(self.entries@).contains(key@),
            },
    {
        let mut i: usize = 0;
        while i < self.entries.len()
            invariant
                i <= self.entries@.len(),
                forall|j: int| 0 <= j < i ==> self.entries@[j].0@ != key@,
            decreases self.entries@.len() - i,
        {
            if str_eq(self.entries[i].0.as_str(), key) {
                return Some(i);
            }
            i = i + 1;
        }
        proof {
            if keys_of(self.entries@).contains(key@) {
                let j = choose|j: int| 0 <= j < keys_of(self.entries@).len() && keys_of(self.entries@)[j] == key@;
                assert(self.entries@[j].0@ == key@);
            }
        }
        None
    }

    /// The value stored under `key`, if any.
    pub fn get(&self, key: &str) -> (r: Option<&V>)
        ensures
            match r {
                Some(v) => self@.dom().contains(key@) && self@[key@] == v@,
                None => !self@.dom().contains(key@),
            },
    {
        proof { use_type_invariant(self); }
        match self.find(key) {
            Some(i) => {
                proof { lemma_entry_in_map(self.entries@, i as int); }
                Some(&self.entries[i].1)
            },
            None => None,
        }
    }

    /// Whether `key` has a value.
    pub fn contains_key(&self, key: &str) -> (r: bool)
        ensures
            r == self@.dom().contains(key@),
    {
        proof { use_type_invariant(self); }
        match self.find(key) {
            Some(i) => {
                proof { lemma_entry_in_map(self.entries@, i as int); }
                true
            },
            None => false,
        }
    }

    /// The number of keys.
    pub fn len(&self) -> (r: usize)
        ensures
            r == self@.dom().len(),
            r == self.entry_seq().len(),
    {
        proof {
            use_type_invariant(self);
            keys_of(self.entries@).unique_seq_to_set();
            assert(self@.dom() =~= keys_of(self.entries@).to_set());
        }
        self.entries.len()
    }

    /// Whether the map has no keys.
    pub fn is_empty(&self) -> (r: bool)
        ensures
            r == (self@.dom().len() == 0),
            r == (self@ == Map::<Seq<char>, V::V>::empty()),
    {
        let n = self.len();
        proof {
            use_type_invariant(self);
            if n == 0 {
                assert(self@ =~= Map::<Seq<char>, V::V>::empty());
            } else {
                lemma_entry_in_map(self.entries@, 0);
            }
        }
        n == 0
    }

    /// Stores `value` under `key`, returning the value it replaces.
    ///
    /// A new key is appended after the existing ones; an existing key keeps
    /// its position.
    pub fn insert(&mut self, key: String, value: V) -> (r: Option<V>)
        ensures
            final(self)@ == old(self)@.insert(key@, value@),
            match r {
                Some(v) => old(self)@.dom().contains(key@) && old(self)@[key@] == v@,
                None => !old(self)@.dom().contains(key@),
            },
    {
        proof { use_type_invariant(&*self); }
        let ghost s0 = self.entries@;
        let ghost k = key@;
        let ghost val = value@;
        let found = self.find(key.as_str());
        let mut entries: Vec<(String, V)> = Vec::new();
        std::mem::swap(&mut entries, &mut self.entries);
        match found {
            Some(i) => {
                proof { lemma_entry_in_map(s0, i as int); }
                let old_entry = entries.remove(i);
                entries.insert(i, (key, value));
                let ghost s1 = entries@;
                proof {
                    assert(s1 =~= s0.update(i as int, s1[i as int]));
                    assert(keys_of(s1) =~= keys_of(s0).update(i as int, k));
                    assert forall|x: Seq<char>| #[trigger] entries_map(s1).dom().contains(x) == old(self)@.insert(k, val).dom().contains(x) by {
                        if keys_of(s1).contains(x) {
                            let j = choose|j: int| 0 <= j < keys_of(s1).len() && keys_of(s1)[j] == x;
                            if j != i { assert(keys_of(s0)[j] == x); }
                        }
                        if keys_of(s0).contains(x) && x != k {
                            let j = choose|j: int| 0 <= j < keys_of(s0).len() && keys_of(s0)[j] == x;
                            assert(j != i);
                            assert(keys_of(s1)[j] == x);
                        }
                        assert(keys_of(s1)[i as int] == k);
                    }
                    assert forall|x: Seq<char>| #[trigger] entries_map(s1).dom().contains(x) implies entries_map(s1)[x] == old(self)@.insert(k, val)[x] by {
                        let j = choose|j: int| 0 <= j < keys_of(s1).len() && keys_of(s1)[j] == x;
                        lemma_entry_in_map(s1, j);
                        if j != i {
                            lemma_entry_in_map(s0, j);
                        }
                    }
                    assert(entries_map(s1) =~= old(self)@.insert(k, val));
                }
                self.entries = entries;
                Some(old_entry.1)
            },
            None => {
                entries.push((key, value));
                let ghost s1 = entries@;
                proof {
                    assert(keys_of(s1) =~= keys_of(s0).push(k));
                    assert forall|x: Seq<char>| #[trigger] entries_map(s1).dom().contains(x) == old(self)@.insert(k, val).dom().contains(x) by {
                        if keys_of(s1).contains(x) {
                            let j = choose|j: int| 0 <= j < keys_of(s1).len() && keys_of(s1)[j] == x;
                            if j < s0.len() { assert(keys_of(s0)[j] == x); }
                        }
                        if keys_of(s0).contains(x) {
                            let j = choose|j: int| 0 <= j < keys_of(s0).len() && keys_of(s0)[j] == x;
                            assert(keys_of(s1)[j] == x);
                        }
                        assert(keys_of(s1)[s0.len() as int] == k);
                    }
                    assert forall|x: Seq<char>| #[trigger] entries_map(s1).dom().contains(x) implies entries_map(s1)[x] == old(self)@.insert(k, val)[x] by {
                        let j = choose|j: int| 0 <= j < keys_of(s1).len() && keys_of(s1)[j] == x;
                        lemma_entry_in_map(s1, j);
                        if j < s0.len() {
                            lemma_entry_in_map(s0, j);
                        }
                    }
                    assert(entries_map(s1) =~= old(self)@.insert(k, val));
                }
                self.entries = entries;
                None
            },
        }
    }
}

impl<V: View> StringMap<V> {
    /// Removes `key`, returning its value if it had one.
    pub fn remove(&mut self, key: &str) -> (r: Option<V>)
        ensures
            final(self)@ == old(self)@.remove(key@),
            match r {
                Some(v) => old(self)@.dom().contains(key@) && old(self)@[key@] == v@,
                None => !old(self)@.dom().contains(key@),
            },
    {
        proof { use_type_invariant(&*self); }
        let ghost s0 = self.entries@;
        let ghost k = key@;
        match self.find(key) {
            Some(i) => {
                proof { lemma_entry_in_map(s0, i as int); }
                let mut entries: Vec<(String, V)> = Vec::new();
                std::mem::swap(&mut entries, &mut self.entries);
                let old_entry = entries.remove(i);
                let ghost s1 = entries@;
                proof {
                    assert(keys_of(s1) =~= keys_of(s0).remove(i as int));
                    assert forall|x: Seq<char>| #[trigger] entries_map(s1).dom().contains(x) == old(self)@.remove(k).dom().contains(x) by {
                        if keys_of(s1).contains(x) {
                            let j = choose|j: int| 0 <= j < keys_of(s1).len() && keys_of(s1)[j] == x;
                            if j < i { assert(keys_of(s0)[j] == x); } else { assert(keys_of(s0)[j + 1] == x); }
                        }
                        if keys_of(s0).contains(x) && x != k {
                            let j = choose|j: int| 0 <= j < keys_of(s0).len() && keys_of(s0)[j] == x;
                            assert(j != i);
                            if j < i { assert(keys_of(s1)[j] == x); } else { assert(keys_of(s1)[j - 1] == x); }
                        }
                    }
                    assert forall|x: Seq<char>| #[trigger] entries_map(s1).dom().contains(x) implies entries_map(s1)[x] == old(self)@.remove(k)[x] by {
                        let j = choose|j: int| 0 <= j < keys_of(s1).len() && keys_of(s1)[j] == x;
                        lemma_entry_in_map(s1, j);
                        if j < i { lemma_entry_in_map(s0, j); } else { lemma_entry_in_map(s0, j + 1); }
                    }
                    assert(entries_map(s1) =~= old(self)@.remove(k));
                }
                self.entries = entries;
                Some(old_entry.1)
            },
            None => {
                proof { assert(old(self)@.remove(k) =~= old(self)@); }
                None
            },
        }
    }

    /// The entry at position `i` in insertion order.
    pub fn entry(&self, i: usize) -> (r: (&String, &V))
        requires
            i < self.entry_seq().len(),
        ensures
            (r.0@, r.1@) == self.entry_seq()[i as int],
            self@.dom().contains(r.0@),
            self@[r.0@] == r.1@,
    {
        proof {
            use_type_invariant(self);
            lemma_entry_in_map(self.entries@, i as int);
        }
        (&self.entries[i].0, &self.entries[i].1)
    }

}

impl StringMap<String> {
    /// Whether both maps hold the same keys with the same values.
    pub fn same_entries(&self, other: &Self) -> (r: bool)
        ensures
            r == (self@ == other@),
    {
        proof {
            use_type_invariant(self);
            use_type_invariant(other);
        }
        let mut i: usize = 0;
        while i < self.entries.len()
            invariant
                i <= self.entries@.len(),
                keys_of(self.entries@).no_duplicates(),
                keys_of(other.entries@).no_duplicates(),
                forall|j: int| #![trigger self.entries@[j]] 0 <= j < i ==> other@.dom().contains(self.entries@[j].0@) && other@[self.entries@[j].0@] == self.entries@[j].1@,
            decreases self.entries@.len() - i,
        {
            match other.get(self.entries[i].0.as_str()) {
                Some(v) => {
                    if !(*v == self.entries[i].1) {
                        proof { lemma_entry_in_map(self.entries@, i as int); }
                        return false;
                    }
                },
                None => {
                    proof { lemma_entry_in_map(self.entries@, i as int); }
                    return false;
                },
            }
            assert(other@.dom().contains(self.entries@[i as int].0@) && other@[self.entries@[i as int].0@] == self.entries@[i as int].1@);
            i = i + 1;
        }
        assert(i == self.entries@.len());
        let mut j: usize = 0;
        while j < other.entries.len()
            invariant
                j <= other.entries@.len(),
                keys_of(self.entries@).no_duplicates(),
                keys_of(other.entries@).no_duplicates(),
                forall|x: int| #![trigger self.entries@[x]] 0 <= x < self.entries@.len() ==> other@.dom().contains(self.entries@[x].0@) && other@[self.entries@[x].0@] == self.entries@[x].1@,
                forall|x: int| 0 <= x < j ==> #[trigger] self@.dom().contains(other.entries@[x].0@),
            decreases other.entries@.len() - j,
        {
            if !self.contains_key(other.entries[j].0.as_str()) {
                proof { lemma_entry_in_map(other.entries@, j as int); }
                return false;
            }
            j = j + 1;
        }
        proof {
            assert forall|k: Seq<char>| self@.dom().contains(k) <==> other@.dom().contains(k) by {
                if self@.dom().contains(k) {
                    let x = choose|x: int| 0 <= x < keys_of(self.entries@).len() && keys_of(self.entries@)[x] == k;
                    assert(self.entries@[x].0@ == k);
                }
                if other@.dom().contains(k) {
                    let x = choose|x: int| 0 <= x < keys_of(other.entries@).len() && keys_of(other.entries@)[x] == k;
                    assert(other.entries@[x].0@ == k);
                }
            }
            assert forall|k: Seq<char>| #[trigger] self@.dom().contains(k) implies self@[k] == other@[k] by {
                let x = choose|x: int| 0 <= x < keys_of(self.entries@).len() && keys_of(self.entries@)[x] == k;
                lemma_entry_in_map(self.entries@, x);
            }
            assert(self@ =~= other@);
        }
        true
    }

    /// A copy holding the same entries in the same order.
    pub fn duplicate(&self) -> (r: Self)
        ensures
            r@ == self@,
            r.entry_seq() == self.entry_seq(),
    {
        proof { use_type_invariant(self); }
        let mut entries: Vec<(String, String)> = Vec::new();
        let mut i: usize = 0;
        while i < self.entries.len()
            invariant
                i <= self.entries@.len(),
                entries@ == self.entries@.take(i as int),
            decreases self.entries@.len() - i,
        {
            entries.push((self.entries[i].0.clone(), self.entries[i].1.clone()));
            proof { assert(entries@ =~= self.entries@.take(i + 1)); }
            i = i + 1;
        }
        proof {
            assert(entries@ =~= self.entries@);
        }
        StringMap { entries }
    }
}

impl StringMap<u64> {
    /// A copy holding the same entries in the same order.
    pub fn duplicate(&self) -> (r: Self)
        ensures
            r@ == self@,
            r.entry_seq() == self.entry_seq(),
    {
        proof { use_type_invariant(self); }
        let mut entries: Vec<(String, u64)> = Vec::new();
        let mut i: usize = 0;
        while i < self.entries.len()
            invariant
                i <= self.entries@.len(),
                entries@ == self.entries@.take(i as int),
            decreases self.entries@.len() - i,
        {
            entries.push((self.entries[i].0.clone(), self.entries[i].1));
            proof { assert(entries@ =~= self.entries@.take(i + 1)); }
            i = i + 1;
        }
        proof {
            assert(entries@ =~= self.entries@);
        }
        StringMap { entries }
    }
}

impl PartialEq for StringMap<String> {
    fn eq(&self, other: &Self) -> (r: bool) {
        self.same_entries(other)
    }
}

impl vstd::std_specs::cmp::PartialEqSpecImpl for StringMap<String> {
    open spec fn obeys_eq_spec() -> bool {
        true
    }

    open spec fn eq_spec(&self, other: &Self) -> bool {
        self@ == other@
    }
}

impl Clone for StringMap<String> {
    fn clone(&self) -> (r: Self) {
        self.duplicate()
    }
}

impl Clone for StringMap<u64> {
    fn clone(&self) -> (r: Self) {
        self.duplicate()
    }
}

} // verus!
