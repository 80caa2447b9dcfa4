//! A map from logic identifiers to item counts.

use vstd::prelude::*;

use crate::text::str_eq;

verus! {

/// A map from logic identifiers (such as `"HOOKSHOT"`) to item counts.
///
/// Each identifier occurs at most once.
#[derive(Debug)]
pub struct Inventory {
    entries: Vec<(String, u32)>,
}

impl Inventory {
    /// No identifier occurs twice.
    #[verifier::type_invariant]
    closed spec fn keys_unique(&self) -> bool {
        forall|i: int, j: int|
            0 <= i < self.entries@.len() && 0 <= j < self.entries@.len() && i != j
                ==> #[trigger] self.entries@[i].0@ != #[trigger] self.entries@[j].0@
    }

    /// Whether some entry has the identifier `k`.
    closed spec fn has_key(&self, k: Seq<char>) -> bool {
        exists|i: int| 0 <= i < self.entries@.len() && #[trigger] self.entries@[i].0@ == k
    }

    /// The index of the entry with identifier `k`.
    closed spec fn index_of(&self, k: Seq<char>) -> int {
        choose|i: int| 0 <= i < self.entries@.len() && #[trigger] self.entries@[i].0@ == k
    }
}

impl View for Inventory {
    type V = Map<Seq<char>, u32>;

    closed spec fn view(&self) -> Map<Seq<char>, u32> {
        Map::new(|k: Seq<char>| self.has_key(k), |k: Seq<char>| self.entries@[self.index_of(k)].1)
    }
}

impl Inventory {
    /// The entry at index `i` is what the map holds for its identifier.
    proof fn lemma_entry(&self, i: int)
        requires
            self.keys_unique(),
            0 <= i < self.entries@.len(),
        ensures
            self@.contains_key(self.entries@[i].0@),
            self@[self.entries@[i].0@] == self.entries@[i].1,
    {
        let k = self.entries@[i].0@;
        assert(self.has_key(k));
        let j = self.index_of(k);
        assert(self.entries@[j].0@ == k);
    }

    /// Creates an empty inventory.
    pub fn new() -> (r: Self)
        ensures
            r@ == Map::<Seq<char>, u32>::empty(),
    {
        let r = Inventory { entries: Vec::new() };
        assert(r@ =~= Map::<Seq<char>, u32>::empty());
        r
    }

    /// Finds the index of the entry with identifier `key`.
    fn find(&self, key: &str) -> (r: Option<usize>)
        ensures
            match r {
                Some(i) => i < self.entries@.len() && self.entries@[i as int].0@ == key@,
                None => !self.has_key(key@),
            },
    {
        let n = self.entries.len();
        let mut i: usize = 0;
        while i < n
            invariant
                n == self.entries@.len(),
                i <= n,
                forall|j: int| 0 <= j < i ==> #[trigger] self.entries@[j].0@ != key@,
            decreases n - i,
        {
            if str_eq(self.entries[i].0.as_str(), key) {
                return Some(i);
            }
            i = i + 1;
        }
        None
    }

    /// Returns the count stored for `key`, if any.
    pub fn get(&self, key: &str) -> (r: Option<&u32>)
        ensures
            match r {
                Some(v) => self@.contains_key(key@) && *v == self@[key@],
                None => !self@.contains_key(key@),
            },
    {
        proof {
            use_type_invariant(self);
        }
        match self.find(key) {
            Some(i) => {
                proof {
                    self.lemma_entry(i as int);
                }
                Some(&self.entries[i].1)
            },
            None => None,
        }
    }

    /// Returns whether a count is stored for `key`.
    pub fn contains_key(&self, key: &str) -> (r: bool)
        ensures
            r == self@.contains_key(key@),
    {
        proof {
            use_type_invariant(self);
        }
        match self.find(key) {
            Some(i) => {
                proof {
                    self.lemma_entry(i as int);
                }
                true
            },
            None => false,
        }
    }

    /// Returns whether the inventory holds no identifier at all.
    pub fn is_empty(&self) -> (r: bool)
        ensures
            r == (self@ == Map::<Seq<char>, u32>::empty()),
    {
        proof {
            use_type_invariant(self);
        }
        if self.entries.len() == 0 {
            assert(self@ =~= Map::<Seq<char>, u32>::empty());
            true
        } else {
            proof {
                self.lemma_entry(0);
                assert(self@.dom().contains(self.entries@[0].0@));
            }
            false
        }
    }

    /// Stores `value` for `key`, replacing any count stored before.
    pub fn insert(&mut self, key: String, value: u32)
        ensures
            final(self)@ == old(self)@.insert(key@, value),
    {
        proof {
            use_type_invariant(&*self);
        }
        let ghost old_self = *self;
        let found = self.find(key.as_str());
        let mut entries: Vec<(String, u32)> = Vec::new();
        std::mem::swap(&mut entries, &mut self.entries);
        match found {
            Some(i) => {
                entries.set(i, (key, value));
                self.entries = entries;
                proof {
                    assert forall|a: int, b: int|
                        0 <= a < self.entries@.len() && 0 <= b < self.entries@.len() && a != b
                            implies #[trigger] self.entries@[a].0@ != #[trigger] self.entries@[b].0@ by {
                        assert(old_self.entries@[a].0@ != old_self.entries@[b].0@);
                    }
                    assert forall|k: Seq<char>| #[trigger]
                        self@.contains_key(k) == old_self@.insert(key@, value).contains_key(k) by {
                        if self.has_key(k) {
                            let j = self.index_of(k);
                            if j != i {
                                assert(old_self.entries@[j].0@ == k);
                            }
                        }
                        if old_self.has_key(k) {
                            let j = old_self.index_of(k);
                            if j != i {
                                assert(self.entries@[j].0@ == k);
                            }
                        }
                        if k == key@ {
                            assert(self.entries@[i as int].0@ == k);
                        }
                    }
                    assert forall|k: Seq<char>| #[trigger] self@.contains_key(k) implies self@[k]
                        == old_self@.insert(key@, value)[k] by {
                        let j = self.index_of(k);
                        self.lemma_entry(j);
                        if j != i {
                            old_self.lemma_entry(j);
                        }
                    }
                    assert(self@ =~= old_self@.insert(key@, value));
                }
            },
            None => {
                let ghost k0 = key@;
                entries.push((key, value));
                self.entries = entries;
                proof {
                    let n = old_self.entries@.len();
                    assert forall|a: int, b: int|
                        0 <= a < self.entries@.len() && 0 <= b < self.entries@.len() && a != b
                            implies #[trigger] self.entries@[a].0@ != #[trigger] self.entries@[b].0@ by {
                        if a < n && b < n {
                            assert(old_self.entries@[a].0@ != old_self.entries@[b].0@);
                        } else if a == n {
                            assert(self.entries@[b] == old_self.entries@[b]);
                        } else {
                            assert(self.entries@[a] == old_self.entries@[a]);
                        }
                    }
                    assert forall|k: Seq<char>| #[trigger]
                        self@.contains_key(k) == old_self@.insert(k0, value).contains_key(k) by {
                        if self.has_key(k) {
                            let j = self.index_of(k);
                            if j < n {
                                assert(old_self.entries@[j].0@ == k);
                            }
                        }
                        if old_self.has_key(k) {
                            let j = old_self.index_of(k);
                            assert(self.entries@[j].0@ == k);
                        }
                        if k == k0 {
                            assert(self.entries@[n as int].0@ == k);
                        }
                    }
                    assert forall|k: Seq<char>| #[trigger] self@.contains_key(k) implies self@[k]
                        == old_self@.insert(k0, value)[k] by {
                        let j = self.index_of(k);
                        self.lemma_entry(j);
                        if j < n {
                            assert(self.entries@[j] == old_self.entries@[j]);
                            old_self.lemma_entry(j);
                        }
                    }
                    assert(self@ =~= old_self@.insert(k0, value));
                }
            },
        }
    }
}

} // verus!
