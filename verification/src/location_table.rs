//! A table of location flag mappings, keyed by location ID.
//!
//! The table is built from the location IDs of the world data (each starting
//! as an unmapped stub) and from the researched mappings, which replace the
//! stubs of their locations. Each location ID occurs at most once.

use vstd::prelude::*;

use crate::text::str_eq;

verus! {

/// A mapping from one location to the flag that tracks it.
pub trait LocationMapping: Sized + Copy {
    /// The location ID.
    spec fn spec_id(&self) -> Seq<char>;

    /// Whether this is an unmapped stub.
    spec fn spec_stub(&self) -> bool;

    /// Whether this mapping is complete (has flag type and bit).
    spec fn spec_complete(&self) -> bool;

    /// The unmapped stub of a location.
    spec fn spec_stub_of(location_id: &'static str) -> Self;

    /// A stub has its location's ID, is a stub, and is not complete.
    proof fn lemma_stub_of(location_id: &'static str)
        ensures
            Self::spec_stub_of(location_id).spec_id() == location_id@,
            Self::spec_stub_of(location_id).spec_stub(),
            !Self::spec_stub_of(location_id).spec_complete(),
    ;

    /// The location ID.
    fn location_key(&self) -> (r: &'static str)
        ensures
            r@ == self.spec_id(),
    ;

    /// The unmapped stub of a location.
    fn stub_of(location_id: &'static str) -> (r: Self)
        ensures
            r == Self::spec_stub_of(location_id),
    ;

    /// Whether this is an unmapped stub.
    fn stub_check(&self) -> (r: bool)
        ensures
            r == self.spec_stub(),
    ;

    /// Whether this mapping is complete.
    fn complete_check(&self) -> (r: bool)
        ensures
            r == self.spec_complete(),
    ;
}

/// No location ID occurs twice among `entries`.
pub open spec fn ids_unique<T: LocationMapping>(entries: Seq<T>) -> bool {
    forall|i: int, j: int|
        0 <= i < entries.len() && 0 <= j < entries.len() && i != j ==> #[trigger] entries[i].spec_id()
            != #[trigger] entries[j].spec_id()
}

/// Every entry is either an unmapped stub or a complete mapping, not both.
pub open spec fn stub_or_complete<T: LocationMapping>(entries: Seq<T>) -> bool {
    forall|i: int| 0 <= i < entries.len() ==> #[trigger] entries[i].spec_stub() != entries[i].spec_complete()
}

/// Whether some entry has location ID `k`.
pub open spec fn has_id<T: LocationMapping>(entries: Seq<T>, k: Seq<char>) -> bool {
    exists|i: int| 0 <= i < entries.len() && #[trigger] entries[i].spec_id() == k
}

/// The index of the entry with location ID `k`.
pub open spec fn index_of_id<T: LocationMapping>(entries: Seq<T>, k: Seq<char>) -> int {
    choose|i: int| 0 <= i < entries.len() && #[trigger] entries[i].spec_id() == k
}

/// The mapping of location `k`, if the entries hold one.
pub open spec fn spec_lookup<T: LocationMapping>(entries: Seq<T>, k: Seq<char>) -> Option<T> {
    if has_id(entries, k) {
        Some(entries[index_of_id(entries, k)])
    } else {
        None
    }
}

/// Adds mapping `m`, replacing the entry of its location if there is one.
pub open spec fn spec_insert<T: LocationMapping>(entries: Seq<T>, m: T) -> Seq<T> {
    if has_id(entries, m.spec_id()) {
        entries.update(index_of_id(entries, m.spec_id()), m)
    } else {
        entries.push(m)
    }
}

/// Adds the mappings `ms` one after the other.
pub open spec fn spec_insert_all<T: LocationMapping>(entries: Seq<T>, ms: Seq<T>) -> Seq<T>
    decreases ms.len(),
{
    if ms.len() == 0 {
        entries
    } else {
        spec_insert(spec_insert_all(entries, ms.drop_last()), ms.last())
    }
}

/// The stubs of the locations `ids`.
pub open spec fn spec_stubs<T: LocationMapping>(ids: Seq<&'static str>) -> Seq<T> {
    ids.map_values(|id: &'static str| T::spec_stub_of(id))
}

/// The entries of a table built from the world's location IDs and the
/// researched mappings.
pub open spec fn spec_built<T: LocationMapping>(ids: Seq<&'static str>, known: Seq<T>) -> Seq<T> {
    spec_insert_all(spec_insert_all(Seq::empty(), spec_stubs::<T>(ids)), known)
}

/// The last of `ms` with location ID `k`, if any.
pub open spec fn spec_last_with_id<T: LocationMapping>(ms: Seq<T>, k: Seq<char>) -> Option<T>
    decreases ms.len(),
{
    if ms.len() == 0 {
        None
    } else if ms.last().spec_id() == k {
        Some(ms.last())
    } else {
        spec_last_with_id(ms.drop_last(), k)
    }
}

/// Looking up after an insert finds the inserted mapping for its location,
/// and what was there before for the others; IDs stay unique.
pub proof fn lemma_insert<T: LocationMapping>(entries: Seq<T>, m: T, k: Seq<char>)
    requires
        ids_unique(entries),
    ensures
        ids_unique(spec_insert(entries, m)),
        spec_lookup(spec_insert(entries, m), k) == if m.spec_id() == k {
            Some(m)
        } else {
            spec_lookup(entries, k)
        },
{
    let r = spec_insert(entries, m);
    if has_id(entries, m.spec_id()) {
        let i = index_of_id(entries, m.spec_id());
        assert forall|a: int, b: int|
            0 <= a < r.len() && 0 <= b < r.len() && a != b implies #[trigger] r[a].spec_id()
            != #[trigger] r[b].spec_id() by {
            assert(entries[a].spec_id() != entries[b].spec_id());
        }
        if m.spec_id() == k {
            assert(r[i].spec_id() == k);
            let j = index_of_id(r, k);
            assert(r[j].spec_id() == k);
        } else {
            if has_id(entries, k) {
                let j = index_of_id(entries, k);
                assert(r[j].spec_id() == k);
                let j2 = index_of_id(r, k);
                assert(r[j2].spec_id() == k);
                assert(entries[j2].spec_id() == k);
            }
            if has_id(r, k) {
                let j2 = index_of_id(r, k);
                assert(entries[j2].spec_id() == k);
            }
        }
    } else {
        let n = entries.len();
        assert forall|a: int, b: int|
            0 <= a < r.len() && 0 <= b < r.len() && a != b implies #[trigger] r[a].spec_id()
            != #[trigger] r[b].spec_id() by {
            if a < n && b < n {
                assert(entries[a].spec_id() != entries[b].spec_id());
            } else if a == n {
                assert(r[b] == entries[b]);
            } else {
                assert(r[a] == entries[a]);
            }
        }
        if m.spec_id() == k {
            assert(r[n as int].spec_id() == k);
            let j = index_of_id(r, k);
            assert(r[j].spec_id() == k);
        } else {
            if has_id(entries, k) {
                let j = index_of_id(entries, k);
                assert(r[j].spec_id() == k);
                let j2 = index_of_id(r, k);
                assert(r[j2].spec_id() == k);
            }
            if has_id(r, k) {
                let j2 = index_of_id(r, k);
                assert(r[j2] == entries[j2]);
            }
        }
    }
}

/// An insert keeps every entry a stub or a complete mapping, when the
/// inserted one is.
pub proof fn lemma_insert_keeps_kinds<T: LocationMapping>(entries: Seq<T>, m: T)
    requires
        stub_or_complete(entries),
        m.spec_stub() != m.spec_complete(),
    ensures
        stub_or_complete(spec_insert(entries, m)),
{
    let r = spec_insert(entries, m);
    assert forall|i: int| 0 <= i < r.len() implies #[trigger] r[i].spec_stub() != r[i].spec_complete() by {
        if i < entries.len() && r[i] != m {
            assert(r[i] == entries[i]);
        }
    }
}

/// Law: after inserting `ms`, the mapping of a location is the last of `ms`
/// for it, or what was there before when `ms` has none.
pub proof fn lemma_insert_all<T: LocationMapping>(entries: Seq<T>, ms: Seq<T>, k: Seq<char>)
    requires
        ids_unique(entries),
    ensures
        ids_unique(spec_insert_all(entries, ms)),
        spec_lookup(spec_insert_all(entries, ms), k) == match spec_last_with_id(ms, k) {
            Some(m) => Some(m),
            None => spec_lookup(entries, k),
        },
    decreases ms.len(),
{
    if ms.len() > 0 {
        lemma_insert_all(entries, ms.drop_last(), k);
        lemma_insert(spec_insert_all(entries, ms.drop_last()), ms.last(), k);
    }
}

/// Inserting mappings that are each a stub or complete keeps the entries so.
proof fn lemma_insert_all_keeps_kinds<T: LocationMapping>(entries: Seq<T>, ms: Seq<T>)
    requires
        stub_or_complete(entries),
        stub_or_complete(ms),
    ensures
        stub_or_complete(spec_insert_all(entries, ms)),
    decreases ms.len(),
{
    if ms.len() > 0 {
        assert(ms.last() == ms[ms.len() - 1]);
        lemma_insert_all_keeps_kinds(entries, ms.drop_last());
        lemma_insert_keeps_kinds(spec_insert_all(entries, ms.drop_last()), ms.last());
    }
}

/// Among the stubs of `ids`, there is one for location `k` exactly when `k`
/// is one of `ids`, and it is a stub of that location.
pub proof fn lemma_stubs_last<T: LocationMapping>(ids: Seq<&'static str>, k: Seq<char>)
    ensures
        spec_last_with_id(spec_stubs::<T>(ids), k).is_some() == (exists|i: int|
            0 <= i < ids.len() && #[trigger] ids[i]@ == k),
        spec_last_with_id(spec_stubs::<T>(ids), k) matches Some(m) ==> m.spec_id() == k
            && m.spec_stub() && !m.spec_complete(),
    decreases ids.len(),
{
    if ids.len() > 0 {
        let rest = ids.drop_last();
        assert(spec_stubs::<T>(ids).drop_last() =~= spec_stubs::<T>(rest));
        T::lemma_stub_of(ids.last());
        lemma_stubs_last::<T>(rest, k);
        if exists|i: int| 0 <= i < ids.len() && #[trigger] ids[i]@ == k {
            let i = choose|i: int| 0 <= i < ids.len() && #[trigger] ids[i]@ == k;
            if i < ids.len() - 1 {
                assert(rest[i]@ == k);
            }
        }
        if exists|i: int| 0 <= i < rest.len() && #[trigger] rest[i]@ == k {
            let i = choose|i: int| 0 <= i < rest.len() && #[trigger] rest[i]@ == k;
            assert(ids[i]@ == k);
        }
    }
}

/// Law: in a built table, the mapping of a location is its last researched
/// mapping when there is one, else the stub of the location when the world
/// data has it, else there is none; a location ID occurs at most once.
pub proof fn lemma_built_lookup<T: LocationMapping>(
    ids: Seq<&'static str>,
    known: Seq<T>,
    k: Seq<char>,
)
    ensures
        ids_unique(spec_built(ids, known)),
        spec_lookup(spec_built(ids, known), k) == match spec_last_with_id(known, k) {
            Some(m) => Some(m),
            None => spec_last_with_id(spec_stubs::<T>(ids), k),
        },
{
    let empty = Seq::<T>::empty();
    lemma_insert_all(empty, spec_stubs::<T>(ids), k);
    lemma_insert_all(spec_insert_all(empty, spec_stubs::<T>(ids)), known, k);
}

/// The last mapping of `ms` with location ID `k`, if any, has ID `k`.
proof fn lemma_last_with_id_has_id<T: LocationMapping>(ms: Seq<T>, k: Seq<char>)
    ensures
        spec_last_with_id(ms, k) matches Some(m) ==> m.spec_id() == k,
    decreases ms.len(),
{
    if ms.len() > 0 {
        lemma_last_with_id_has_id(ms.drop_last(), k);
    }
}

/// Law: every location of the world data is found in a built table, under
/// its own ID.
pub proof fn lemma_world_ids_found<T: LocationMapping>(ids: Seq<&'static str>, known: Seq<T>, i: int)
    requires
        0 <= i < ids.len(),
    ensures
        spec_lookup(spec_built(ids, known), ids[i]@) matches Some(m) && m.spec_id() == ids[i]@,
{
    let k = ids[i]@;
    lemma_built_lookup(ids, known, k);
    lemma_stubs_last::<T>(ids, k);
    lemma_last_with_id_has_id(known, k);
}

/// The number of entries satisfying `p`.
pub open spec fn spec_count<T>(entries: Seq<T>, p: spec_fn(T) -> bool) -> nat {
    entries.filter(p).len()
}

/// Stubs and complete mappings together are all the entries.
pub proof fn lemma_stub_and_complete_counts<T: LocationMapping>(entries: Seq<T>)
    requires
        stub_or_complete(entries),
    ensures
        spec_count(entries, |m: T| m.spec_complete()) + spec_count(entries, |m: T| m.spec_stub())
            == entries.len(),
    decreases entries.len(),
{
    reveal_with_fuel(Seq::filter, 1);
    if entries.len() > 0 {
        assert(entries.last() == entries[entries.len() - 1]);
        lemma_stub_and_complete_counts(entries.drop_last());
    }
}

/// Every location ID of `ids` has an entry among `entries`.
pub open spec fn covers_ids<T: LocationMapping>(entries: Seq<T>, ids: Seq<&'static str>) -> bool {
    forall|i: int| 0 <= i < ids.len() ==> has_id(entries, #[trigger] ids[i]@)
}

/// No location ID occurs twice among `ids`.
pub open spec fn ids_distinct(ids: Seq<&'static str>) -> bool {
    forall|i: int, j: int|
        #![trigger ids[i], ids[j]]
        0 <= i < ids.len() && 0 <= j < ids.len() && i != j ==> ids[i]@ != ids[j]@
}

/// Entries with unique location IDs that cover distinct location IDs are at
/// least as many as those IDs.
pub proof fn lemma_covering_len<T: LocationMapping>(entries: Seq<T>, ids: Seq<&'static str>)
    requires
        ids_unique(entries),
        covers_ids(entries, ids),
        ids_distinct(ids),
    ensures
        ids.len() <= entries.len(),
{
    let vs = ids.map_values(|s: &'static str| s@);
    let es = entries.map_values(|m: T| m.spec_id());
    assert forall|i: int, j: int| 0 <= i < vs.len() && 0 <= j < vs.len() && i != j implies vs[i] != vs[j] by {
        assert(vs[i] == ids[i]@ && vs[j] == ids[j]@);
    }
    assert forall|i: int, j: int| 0 <= i < es.len() && 0 <= j < es.len() && i != j implies es[i] != es[j] by {
        assert(es[i] == entries[i].spec_id() && es[j] == entries[j].spec_id());
    }
    vs.unique_seq_to_set();
    es.unique_seq_to_set();
    assert forall|k: Seq<char>| vs.to_set().contains(k) implies es.to_set().contains(k) by {
        let i = choose|i: int| 0 <= i < vs.len() && vs[i] == k;
        assert(vs[i] == ids[i]@);
        assert(has_id(entries, ids[i]@));
        let j = choose|j: int| 0 <= j < entries.len() && #[trigger] entries[j].spec_id() == ids[i]@;
        assert(es[j] == k);
    }
    vstd::seq_lib::seq_to_set_is_finite(es);
    vstd::set_lib::lemma_len_subset(vs.to_set(), es.to_set());
}

/// A table of location mappings.
#[derive(Debug)]
pub struct LocationTable<T: LocationMapping> {
    location_ids: Vec<&'static str>,
    entries: Vec<T>,
}

impl<T: LocationMapping> LocationTable<T> {
    /// Location IDs are unique, every entry is a stub or complete, and every
    /// location ID of the world data has an entry.
    #[verifier::type_invariant]
    closed spec fn well_formed(&self) -> bool {
        ids_unique(self.entries@) && stub_or_complete(self.entries@) && covers_ids(self.entries@, self.location_ids@)
    }

    /// The location IDs of the world data the table was built from.
    pub closed spec fn spec_location_ids(&self) -> Seq<&'static str> {
        self.location_ids@
    }
}

impl<T: LocationMapping> View for LocationTable<T> {
    type V = Seq<T>;

    closed spec fn view(&self) -> Seq<T> {
        self.entries@
    }
}

/// Finds the index of the entry with location ID `key`.
fn find_entry<T: LocationMapping>(entries: &Vec<T>, key: &str) -> (r: Option<usize>)
    ensures
        match r {
            Some(i) => i < entries@.len() && entries@[i as int].spec_id() == key@,
            None => !has_id(entries@, key@),
        },
{
    let n = entries.len();
    let mut i: usize = 0;
    while i < n
        invariant
            n == entries@.len(),
            i <= n,
            forall|j: int| 0 <= j < i ==> #[trigger] entries@[j].spec_id() != key@,
        decreases n - i,
    {
        if str_eq(entries[i].location_key(), key) {
            return Some(i);
        }
        i = i + 1;
    }
    None
}

/// Adds mapping `m`, replacing the entry of its location if there is one.
fn insert_entry<T: LocationMapping>(entries: &mut Vec<T>, m: T)
    requires
        ids_unique(old(entries)@),
    ensures
        final(entries)@ == spec_insert(old(entries)@, m),
{
    match find_entry(entries, m.location_key()) {
        Some(i) => {
            proof {
                let k = m.spec_id();
                let j = index_of_id(old(entries)@, k);
                assert(old(entries)@[i as int].spec_id() == k);
                assert(old(entries)@[j].spec_id() == k);
            }
            entries.set(i, m);
        },
        None => {
            entries.push(m);
        },
    }
}

impl<T: LocationMapping> LocationTable<T> {
    /// Builds a table: the stubs of the world's location IDs first, then the
    /// researched mappings `known`, each replacing the entry of its location.
    pub fn build(location_ids: Vec<&'static str>, known: Vec<T>) -> (t: Self)
        requires
            stub_or_complete(known@),
        ensures
            t@ == spec_built(location_ids@, known@),
            t.spec_location_ids() == location_ids@,
    {
        let mut entries: Vec<T> = Vec::new();
        let ghost stubs = spec_stubs::<T>(location_ids@);
        let n = location_ids.len();
        let mut i: usize = 0;
        while i < n
            invariant
                n == location_ids@.len(),
                stubs == spec_stubs::<T>(location_ids@),
                i <= n,
                entries@ == spec_insert_all(Seq::<T>::empty(), stubs.take(i as int)),
                ids_unique(entries@),
                stub_or_complete(entries@),
            decreases n - i,
        {
            let stub = T::stub_of(location_ids[i]);
            proof {
                T::lemma_stub_of(location_ids@[i as int]);
                assert(stubs.take(i + 1).drop_last() =~= stubs.take(i as int));
                assert(stubs.take(i + 1).last() == stub);
                lemma_insert(entries@, stub, stub.spec_id());
                lemma_insert_keeps_kinds(entries@, stub);
            }
            insert_entry(&mut entries, stub);
            i = i + 1;
        }
        assert(stubs.take(n as int) =~= stubs);
        let ghost base = entries@;
        let m = known.len();
        let mut j: usize = 0;
        while j < m
            invariant
                m == known@.len(),
                stub_or_complete(known@),
                j <= m,
                entries@ == spec_insert_all(base, known@.take(j as int)),
                ids_unique(entries@),
                stub_or_complete(entries@),
            decreases m - j,
        {
            let k = known[j];
            proof {
                assert(known@.take(j + 1).drop_last() =~= known@.take(j as int));
                assert(known@.take(j + 1).last() == k);
                lemma_insert(entries@, k, k.spec_id());
                lemma_insert_keeps_kinds(entries@, k);
            }
            insert_entry(&mut entries, k);
            j = j + 1;
        }
        assert(known@.take(m as int) =~= known@);
        proof {
            assert forall|i: int| 0 <= i < location_ids@.len() implies has_id(
                entries@,
                #[trigger] location_ids@[i]@,
            ) by {
                lemma_world_ids_found(location_ids@, known@, i);
            }
        }
        LocationTable { location_ids, entries }
    }

    /// Returns the mapping of a location ID, if the table has one.
    pub fn get(&self, location_id: &str) -> (r: Option<&T>)
        ensures
            match r {
                Some(m) => spec_lookup(self@, location_id@) == Some(*m),
                None => spec_lookup(self@, location_id@) is None,
            },
    {
        proof {
            use_type_invariant(self);
        }
        match find_entry(&self.entries, location_id) {
            Some(i) => {
                proof {
                    let j = index_of_id(self@, location_id@);
                    assert(self@[i as int].spec_id() == location_id@);
                    assert(self@[j].spec_id() == location_id@);
                }
                Some(&self.entries[i])
            },
            None => None,
        }
    }

    /// The number of locations in the table: the mapped ones and the stubs
    /// together, and no fewer than the world's location IDs when those are
    /// distinct.
    pub fn len(&self) -> (r: usize)
        ensures
            r == self@.len(),
            r == spec_count(self@, |m: T| m.spec_complete()) + spec_count(self@, |m: T| m.spec_stub()),
            ids_distinct(self.spec_location_ids()) ==> self.spec_location_ids().len() <= r,
    {
        proof {
            use_type_invariant(self);
            lemma_stub_and_complete_counts(self@);
            if ids_distinct(self.location_ids@) {
                lemma_covering_len(self.entries@, self.location_ids@);
            }
        }
        self.entries.len()
    }

    /// All entries of the table: no location ID occurs twice among them, and
    /// each is a stub or a complete mapping.
    pub fn all_entries(&self) -> (r: Vec<T>)
        ensures
            r@ == self@,
            ids_unique(r@),
            stub_or_complete(r@),
    {
        proof {
            use_type_invariant(self);
        }
        let mut r: Vec<T> = Vec::new();
        let n = self.entries.len();
        let mut i: usize = 0;
        while i < n
            invariant
                n == self@.len(),
                i <= n,
                r@ == self@.take(i as int),
            decreases n - i,
        {
            r.push(self.entries[i]);
            proof {
                assert(self@.take(i + 1) =~= self@.take(i as int).push(self@[i as int]));
            }
            i = i + 1;
        }
        assert(self@.take(n as int) =~= self@);
        r
    }

    /// The location IDs of the world data the table was built from; each
    /// looks up to an entry with that ID.
    pub fn location_ids(&self) -> (r: Vec<&'static str>)
        ensures
            r@ == self.spec_location_ids(),
            forall|i: int|
                0 <= i < r@.len() ==> (spec_lookup(self@, #[trigger] r@[i]@) matches Some(m) && m.spec_id()
                    == r@[i]@),
    {
        proof {
            use_type_invariant(self);
            assert forall|i: int| 0 <= i < self.location_ids@.len() implies (spec_lookup(
                self@,
                #[trigger] self.location_ids@[i]@,
            ) matches Some(m) && m.spec_id() == self.location_ids@[i]@) by {
                let k = self.location_ids@[i]@;
                assert(has_id(self@, k));
                let j = index_of_id(self@, k);
                assert(self@[j].spec_id() == k);
            }
        }
        let mut r: Vec<&'static str> = Vec::new();
        let n = self.location_ids.len();
        let mut i: usize = 0;
        while i < n
            invariant
                n == self.location_ids@.len(),
                i <= n,
                r@ == self.location_ids@.take(i as int),
            decreases n - i,
        {
            r.push(self.location_ids[i]);
            proof {
                assert(self.location_ids@.take(i + 1) =~= self.location_ids@.take(i as int).push(
                    self.location_ids@[i as int],
                ));
            }
            i = i + 1;
        }
        assert(self.location_ids@.take(n as int) =~= self.location_ids@);
        r
    }

    /// The complete (mapped) entries, in table order.
    pub fn mapped_entries(&self) -> (r: Vec<T>)
        ensures
            r@ == self@.filter(|m: T| m.spec_complete()),
    {
        let mut r: Vec<T> = Vec::new();
        let n = self.entries.len();
        let mut i: usize = 0;
        while i < n
            invariant
                n == self@.len(),
                i <= n,
                r@ == self@.take(i as int).filter(|m: T| m.spec_complete()),
            decreases n - i,
        {
            proof {
                reveal_with_fuel(Seq::filter, 1);
                assert(self@.take(i + 1).drop_last() =~= self@.take(i as int));
            }
            if self.entries[i].complete_check() {
                r.push(self.entries[i]);
            }
            i = i + 1;
        }
        assert(self@.take(n as int) =~= self@);
        r
    }

    /// The unmapped stub entries, in table order.
    pub fn stub_entries(&self) -> (r: Vec<T>)
        ensures
            r@ == self@.filter(|m: T| m.spec_stub()),
    {
        let mut r: Vec<T> = Vec::new();
        let n = self.entries.len();
        let mut i: usize = 0;
        while i < n
            invariant
                n == self@.len(),
                i <= n,
                r@ == self@.take(i as int).filter(|m: T| m.spec_stub()),
            decreases n - i,
        {
            proof {
                reveal_with_fuel(Seq::filter, 1);
                assert(self@.take(i + 1).drop_last() =~= self@.take(i as int));
            }
            if self.entries[i].stub_check() {
                r.push(self.entries[i]);
            }
            i = i + 1;
        }
        assert(self@.take(n as int) =~= self@);
        r
    }

    /// The number of complete (mapped) entries.
    pub fn mapped_count(&self) -> (r: usize)
        ensures
            r == spec_count(self@, |m: T| m.spec_complete()),
    {
        proof {
            self@.filter(|m: T| m.spec_complete()).lemma_filter_len(|m: T| m.spec_complete());
        }
        self.mapped_entries().len()
    }

    /// The number of unmapped stub entries. Every location of the table is
    /// either mapped or a stub, so the stub and mapped counts add up to the
    /// number of locations.
    pub fn stub_count(&self) -> (r: usize)
        ensures
            r == spec_count(self@, |m: T| m.spec_stub()),
            r + spec_count(self@, |m: T| m.spec_complete()) == self@.len(),
    {
        proof {
            use_type_invariant(self);
            lemma_stub_and_complete_counts(self@);
        }
        self.stub_entries().len()
    }
}

} // verus!
