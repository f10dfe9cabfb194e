use vstd::prelude::*;

use slotmap::{DefaultKey, SparseSecondaryMap};

use crate::capabilities::{
    map_has_count, secondary_insert_outcome, Capacity, Clear, Collection, Get, GetMut, Keyed, Len, Lookup, MapInsert, Remove,
    Reserve, WithCapacity,
};

verus! {

/// The slot map itself, kept out of Verus's sight: its type carries a bound of
/// slotmap's `Key` trait, which Verus refuses in a declaration.
#[verifier::external_body]
#[verifier::reject_recursive_types(T)]
struct RawSparseSecondary<T> {
    map: SparseSecondaryMap<DefaultKey, T>,
}

/// A sparse secondary map: a secondary map stored in a hash table, for keys that are few
/// compared with the slot map's. Inserting under a key that its slot map has since
/// removed may be refused.
///
/// Its abstract value is the map from the keys in use to their items; the methods
/// below are the secondary map's own, each stated over that map.
#[verifier::reject_recursive_types(T)]
pub struct SparseSecondary<T> {
    inner: RawSparseSecondary<T>,
    items: Ghost<Map<DefaultKey, T>>,
    cap: Ghost<nat>,
}

impl<T> View for SparseSecondary<T> {
    type V = Map<DefaultKey, T>;

    closed spec fn view(&self) -> Map<DefaultKey, T> {
        self.items@
    }
}

impl<T> SparseSecondary<T> {
    /// The items are finitely many and fit in the reserved storage.
    #[verifier::type_invariant]
    spec fn well_formed(&self) -> bool {
        &&& self.items@.dom().finite()
        &&& self.items@.len() <= self.cap@
    }

    /// The number of items the storage holds without reallocating.
    pub closed spec fn spec_cap(&self) -> nat {
        self.cap@
    }
}

/// Relies on `SparseSecondaryMap::new`: an empty secondary map.
#[verifier::external_body]
fn sparse_secondary_new<T>() -> (r: SparseSecondary<T>)
    ensures
        r@.is_empty(),
{
    SparseSecondary { inner: RawSparseSecondary { map: SparseSecondaryMap::new() }, items: Ghost(Map::empty()), cap: Ghost(0) }
}

/// Relies on `SparseSecondaryMap::with_capacity`: an empty secondary map.
#[verifier::external_body]
fn sparse_secondary_with_capacity<T>(capacity: usize) -> (r: SparseSecondary<T>)
    ensures
        r@.is_empty(),
        r.spec_cap() >= capacity,
{
    SparseSecondary { inner: RawSparseSecondary { map: SparseSecondaryMap::with_capacity(capacity) }, items: Ghost(Map::empty()),
        cap: Ghost(capacity as nat) }
}

/// Relies on `SparseSecondaryMap::len`: the number of keys in use, finitely many.
#[verifier::external_body]
fn sparse_secondary_len<T>(s: &SparseSecondary<T>) -> (r: usize)
    ensures
        map_has_count(s@, r as nat),
{
    s.inner.map.len()
}

/// Relies on `SparseSecondaryMap::capacity`: the storage for values, which covers the stored ones.
#[verifier::external_body]
fn sparse_secondary_capacity<T>(s: &SparseSecondary<T>) -> (r: usize)
    ensures
        r == s.spec_cap(),
{
    s.inner.map.capacity()
}

/// Relies on `SparseSecondaryMap::reserve`: storage grows to hold `additional` more values,
/// and the stored values stay.
#[verifier::external_body]
fn sparse_secondary_reserve<T>(s: &mut SparseSecondary<T>, additional: usize)
    ensures
        final(s)@ == old(s)@,
        final(s).spec_cap() >= final(s)@.len() + additional,
{
    s.inner.map.reserve(additional)
}

/// Relies on `SparseSecondaryMap::clear`: every key is released.
#[verifier::external_body]
fn sparse_secondary_clear<T>(s: &mut SparseSecondary<T>)
    ensures
        final(s)@.is_empty(),
{
    s.inner.map.clear()
}

/// Relies on `SparseSecondaryMap::contains_key`: whether a value is stored under `key`.
#[verifier::external_body]
fn sparse_secondary_contains<T>(s: &SparseSecondary<T>, key: DefaultKey) -> (r: bool)
    ensures
        r == s@.contains_key(key),
{
    s.inner.map.contains_key(key)
}

/// Relies on `SparseSecondaryMap::get`: the value stored under `key`, if any.
#[verifier::external_body]
fn sparse_secondary_get<T>(s: &SparseSecondary<T>, key: DefaultKey) -> (r: Option<&T>)
    ensures
        match r {
            Some(v) => s@.contains_key(key) && *v == s@[key],
            None => !s@.contains_key(key),
        },
{
    s.inner.map.get(key)
}

/// Relies on `SparseSecondaryMap::get_mut`: the value stored under `key`, if any; writing through
/// it changes that value only.
#[verifier::external_body]
fn sparse_secondary_get_mut<T>(s: &mut SparseSecondary<T>, key: DefaultKey) -> (r: Option<&mut T>)
    ensures
        match r {
            Some(v) => {
                &&& old(s)@.contains_key(key)
                &&& *v == old(s)@[key]
                &&& final(s)@ == old(s)@.insert(key, *final(v))
            },
            None => {
                &&& !old(s)@.contains_key(key)
                &&& final(s)@ == old(s)@
            },
        },
{
    s.inner.map.get_mut(key)
}

/// Relies on `SparseSecondaryMap::insert`: a key already present gets the new value and its old one
/// is returned. Otherwise `None` is returned, and the value is stored unless the key is
/// stale; storing it may drop an entry under an older key for the same slot.
#[verifier::external_body]
fn sparse_secondary_insert<T>(s: &mut SparseSecondary<T>, key: DefaultKey, item: T) -> (r: Option<T>)
    ensures
        secondary_insert_outcome(old(s)@, key, item, final(s)@, r),
{
    s.inner.map.insert(key, item)
}

/// Relies on `SparseSecondaryMap::remove`: the value under `key` is returned and the key
/// released, or `None` when the key designates nothing.
#[verifier::external_body]
fn sparse_secondary_remove<T>(s: &mut SparseSecondary<T>, key: DefaultKey) -> (r: Option<T>)
    ensures
        match r {
            Some(v) => {
                &&& old(s)@.contains_key(key)
                &&& v == old(s)@[key]
                &&& final(s)@ == old(s)@.remove(key)
            },
            None => {
                &&& !old(s)@.contains_key(key)
                &&& final(s)@ == old(s)@
            },
        },
{
    s.inner.map.remove(key)
}

impl<T> SparseSecondary<T> {
    pub fn new() -> (r: Self)
        ensures
            r@ == Map::<DefaultKey, T>::empty(),
    {
        let r = sparse_secondary_new();
        assert(r@ =~= Map::<DefaultKey, T>::empty());
        r
    }

    pub fn contains(&self, key: DefaultKey) -> (r: bool)
        ensures
            r == self@.contains_key(key),
    {
        sparse_secondary_contains(self, key)
    }
}

impl<T> Collection for SparseSecondary<T> {
    type Item = T;

    type Model = Map<DefaultKey, T>;

    open spec fn model(&self) -> Map<DefaultKey, T> {
        self@
    }

    open spec fn obeys_model() -> bool {
        true
    }

    open spec fn spec_len(&self) -> nat {
        self@.len()
    }

    open spec fn empty_model() -> Self::Model {
        Map::empty()
    }

    open spec fn spec_capacity(&self) -> Option<nat> {
        Some(self.spec_cap())
    }
}

impl<T> Keyed for SparseSecondary<T> {
    type Key = DefaultKey;
}

impl<T> Len for SparseSecondary<T> {
    fn len(&self) -> (r: usize) {
        sparse_secondary_len(self)
    }
}

impl<T> Capacity for SparseSecondary<T> {
    fn capacity(&self) -> (r: usize) {
        proof {
            use_type_invariant(self);
        }
        sparse_secondary_capacity(self)
    }
}

impl<T> WithCapacity for SparseSecondary<T> {
    fn with_capacity(capacity: usize) -> (r: Self) {
        let r = sparse_secondary_with_capacity(capacity);
        assert(r@ =~= Map::<DefaultKey, T>::empty());
        r
    }
}

impl<T> Reserve for SparseSecondary<T> {
    fn reserve(&mut self, additional: usize) {
        sparse_secondary_reserve(self, additional)
    }
}

impl<T> Clear for SparseSecondary<T> {
    fn clear(&mut self) {
        sparse_secondary_clear(self);
        assert(self@ =~= Map::<DefaultKey, T>::empty());
    }
}

impl<T> Lookup<DefaultKey> for SparseSecondary<T> {
    open spec fn spec_get(&self, key: DefaultKey) -> Option<T> {
        if self@.contains_key(key) {
            Some(self@[key])
        } else {
            None
        }
    }

    proof fn lemma_empty_designates_nothing(&self, key: DefaultKey) {
    }
}

impl<T> Get<DefaultKey> for SparseSecondary<T> {
    fn get(&self, key: DefaultKey) -> (r: Option<&T>) {
        sparse_secondary_get(self, key)
    }
}

impl<T> GetMut<DefaultKey> for SparseSecondary<T> {
    open spec fn spec_set(&self, key: DefaultKey, item: T) -> Map<DefaultKey, T> {
        self@.insert(key, item)
    }

    fn get_mut(&mut self, key: DefaultKey) -> (r: Option<&mut T>) {
        sparse_secondary_get_mut(self, key)
    }
}

impl<T> MapInsert<DefaultKey> for SparseSecondary<T> {
    type Output = Option<T>;

    open spec fn spec_map_insert(
        &self,
        key: DefaultKey,
        value: T,
        after: Map<DefaultKey, T>,
        out: Option<T>,
    ) -> bool {
        secondary_insert_outcome(self@, key, value, after, out)
    }

    fn insert(&mut self, key: DefaultKey, value: T) -> (r: Option<T>) {
        sparse_secondary_insert(self, key, value)
    }
}

impl<T> Remove<DefaultKey> for SparseSecondary<T> {
    /// Keyed removal: the key is released, other keys keep their items.
    open spec fn spec_remove(&self, key: DefaultKey) -> Map<DefaultKey, T> {
        self@.remove(key)
    }

    fn remove(&mut self, key: DefaultKey) -> (r: Option<T>) {
        proof {
            use_type_invariant(&*self);
        }
        sparse_secondary_remove(self, key)
    }
}

} // verus!
