use vstd::prelude::*;

use slab::Slab;

use crate::capabilities::{
    map_has_count, Capacity, Clear, Collection, Get, GetMut, Insert, Len, Lookup, Remove, Reserve,
    WithCapacity,
};

verus! {

#[verifier::external_type_specification]
#[verifier::external_body]
#[verifier::reject_recursive_types(T)]
pub struct ExSlab<T>(Slab<T>);

/// A slab: each inserted item is stored under a key that the slab picks, and the key
/// stays valid until the item is removed.
///
/// Its abstract value is the map from the keys in use to their items; the methods
/// below are the slab's own, each stated over that map.
#[verifier::reject_recursive_types(T)]
pub struct SlabMap<T> {
    inner: Slab<T>,
    items: Ghost<Map<usize, T>>,
    cap: Ghost<nat>,
}

impl<T> View for SlabMap<T> {
    type V = Map<usize, T>;

    closed spec fn view(&self) -> Map<usize, T> {
        self.items@
    }
}

impl<T> SlabMap<T> {
    /// The items are finitely many and fit in the reserved storage.
    #[verifier::type_invariant]
    spec fn well_formed(&self) -> bool {
        &&& self.items@.dom().finite()
        &&& self.items@.len() <= self.cap@
    }

    /// The number of items the storage holds without reallocating.
    pub closed spec fn spec_cap(&self) -> nat {
        self.cap@
    }
}

/// Relies on `Slab::new`: an empty slab.
#[verifier::external_body]
fn slab_new<T>() -> (r: SlabMap<T>)
    ensures
        r@.is_empty(),
{
    SlabMap { inner: Slab::new(), items: Ghost(Map::empty()), cap: Ghost(0) }
}

/// Relies on `Slab::with_capacity`: an empty slab.
#[verifier::external_body]
fn slab_with_capacity<T>(capacity: usize) -> (r: SlabMap<T>)
    ensures
        r@.is_empty(),
        r.spec_cap() >= capacity,
{
    SlabMap { inner: Slab::with_capacity(capacity), items: Ghost(Map::empty()),
        cap: Ghost(capacity as nat) }
}

/// Relies on `Slab::len`: the number of keys in use, finitely many.
#[verifier::external_body]
fn slab_len<T>(s: &SlabMap<T>) -> (r: usize)
    ensures
        map_has_count(s@, r as nat),
{
    s.inner.len()
}

/// Relies on `Slab::capacity`: the storage for values, which covers the stored ones.
#[verifier::external_body]
fn slab_capacity<T>(s: &SlabMap<T>) -> (r: usize)
    ensures
        r == s.spec_cap(),
{
    s.inner.capacity()
}

/// Relies on `Slab::reserve`: storage grows to hold `additional` more values,
/// and the stored values stay.
#[verifier::external_body]
fn slab_reserve<T>(s: &mut SlabMap<T>, additional: usize)
    ensures
        final(s)@ == old(s)@,
        final(s).spec_cap() >= final(s)@.len() + additional,
{
    s.inner.reserve(additional)
}

/// Relies on `Slab::clear`: every key is released.
#[verifier::external_body]
fn slab_clear<T>(s: &mut SlabMap<T>)
    ensures
        final(s)@.is_empty(),
{
    s.inner.clear()
}

/// Relies on `Slab::contains`: whether a value is stored under `key`.
#[verifier::external_body]
fn slab_contains<T>(s: &SlabMap<T>, key: usize) -> (r: bool)
    ensures
        r == s@.contains_key(key),
{
    s.inner.contains(key)
}

/// Relies on `Slab::get`: the value stored under `key`, if any.
#[verifier::external_body]
fn slab_get<T>(s: &SlabMap<T>, key: usize) -> (r: Option<&T>)
    ensures
        match r {
            Some(v) => s@.contains_key(key) && *v == s@[key],
            None => !s@.contains_key(key),
        },
{
    s.inner.get(key)
}

/// Relies on `Slab::get_mut`: the value stored under `key`, if any; writing through
/// it changes that value only.
#[verifier::external_body]
fn slab_get_mut<T>(s: &mut SlabMap<T>, key: usize) -> (r: Option<&mut T>)
    ensures
        match r {
            Some(v) => {
                &&& old(s)@.contains_key(key)
                &&& *v == old(s)@[key]
                &&& final(s)@ == old(s)@.insert(key, *final(v))
            },
            None => {
                &&& !old(s)@.contains_key(key)
                &&& final(s)@ == old(s)@
            },
        },
{
    s.inner.get_mut(key)
}

/// Relies on `Slab::insert`: the value goes under a key that was not in use, which
/// is returned.
#[verifier::external_body]
fn slab_insert<T>(s: &mut SlabMap<T>, item: T) -> (r: usize)
    ensures
        !old(s)@.contains_key(r),
        final(s)@ == old(s)@.insert(r, item),
{
    s.inner.insert(item)
}

/// Relies on `Slab::remove`, which panics on a key not in use: the value under
/// `key` is returned and the key released.
#[verifier::external_body]
fn slab_remove<T>(s: &mut SlabMap<T>, key: usize) -> (r: T)
    requires
        old(s)@.contains_key(key),
    ensures
        r == old(s)@[key],
        final(s)@ == old(s)@.remove(key),
{
    s.inner.remove(key)
}

impl<T> SlabMap<T> {
    pub fn new() -> (r: Self)
        ensures
            r@ == Map::<usize, T>::empty(),
    {
        let r = slab_new();
        assert(r@ =~= Map::<usize, T>::empty());
        r
    }

    pub fn contains(&self, key: usize) -> (r: bool)
        ensures
            r == self@.contains_key(key),
    {
        slab_contains(self, key)
    }
}

impl<T> Collection for SlabMap<T> {
    type Item = T;

    type Model = Map<usize, T>;

    open spec fn model(&self) -> Map<usize, T> {
        self@
    }

    open spec fn obeys_model() -> bool {
        true
    }

    open spec fn spec_len(&self) -> nat {
        self@.len()
    }

    open spec fn empty_model() -> Self::Model {
        Map::empty()
    }

    open spec fn spec_capacity(&self) -> Option<nat> {
        Some(self.spec_cap())
    }
}

impl<T> Len for SlabMap<T> {
    fn len(&self) -> (r: usize) {
        slab_len(self)
    }
}

impl<T> Capacity for SlabMap<T> {
    fn capacity(&self) -> (r: usize) {
        proof {
            use_type_invariant(self);
        }
        slab_capacity(self)
    }
}

impl<T> WithCapacity for SlabMap<T> {
    fn with_capacity(capacity: usize) -> (r: Self) {
        let r = slab_with_capacity(capacity);
        assert(r@ =~= Map::<usize, T>::empty());
        r
    }
}

impl<T> Reserve for SlabMap<T> {
    fn reserve(&mut self, additional: usize) {
        slab_reserve(self, additional)
    }
}

impl<T> Clear for SlabMap<T> {
    fn clear(&mut self) {
        slab_clear(self);
        assert(self@ =~= Map::<usize, T>::empty());
    }
}

impl<T> Lookup<usize> for SlabMap<T> {
    open spec fn spec_get(&self, key: usize) -> Option<T> {
        if self@.contains_key(key) {
            Some(self@[key])
        } else {
            None
        }
    }

    proof fn lemma_empty_designates_nothing(&self, key: usize) {
    }
}

impl<T> Get<usize> for SlabMap<T> {
    fn get(&self, key: usize) -> (r: Option<&T>) {
        slab_get(self, key)
    }
}

impl<T> GetMut<usize> for SlabMap<T> {
    open spec fn spec_set(&self, key: usize, item: T) -> Map<usize, T> {
        self@.insert(key, item)
    }

    fn get_mut(&mut self, key: usize) -> (r: Option<&mut T>) {
        slab_get_mut(self, key)
    }
}

impl<T> Insert for SlabMap<T> {
    /// The key the item was stored under.
    type Output = usize;

    /// The slab picks a key not in use and stores the item under it.
    open spec fn spec_insert(&self, item: T, after: Map<usize, T>, out: usize) -> bool {
        !self@.contains_key(out) && after == self@.insert(out, item)
    }

    open spec fn spec_insert_len(&self, item: T) -> nat {
        self@.len() + 1
    }

    open spec fn spec_has_room(&self) -> bool {
        true
    }

    fn insert(&mut self, item: T) -> (r: usize) {
        proof {
            use_type_invariant(&*self);
        }
        slab_insert(self, item)
    }
}

impl<T> Remove<usize> for SlabMap<T> {
    /// Keyed removal: the key is released, other keys keep their items.
    open spec fn spec_remove(&self, key: usize) -> Map<usize, T> {
        self@.remove(key)
    }

    fn remove(&mut self, key: usize) -> (r: Option<T>) {
        proof {
            use_type_invariant(&*self);
        }
        if self.contains(key) {
            Some(slab_remove(self, key))
        } else {
            None
        }
    }
}

} // verus!
