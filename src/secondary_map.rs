use vstd::prelude::*;

use slotmap::{DefaultKey, SecondaryMap};

use crate::capabilities::{
    map_has_count, secondary_insert_outcome, Clear, Collection, Get, GetMut, Keyed, Len, Lookup, MapInsert, Remove,
    WithCapacity,
};

verus! {

/// The slot map itself, kept out of Verus's sight: its type carries a bound of
/// slotmap's `Key` trait, which Verus refuses in a declaration.
#[verifier::external_body]
#[verifier::reject_recursive_types(T)]
struct RawSecondary<T> {
    map: SecondaryMap<DefaultKey, T>,
}

/// A secondary map: items attached to keys that a slot map handed out. Inserting under a
/// key that its slot map has since removed may be refused.
///
/// Its abstract value is the map from the keys in use to their items; the methods
/// below are the secondary map's own, each stated over that map.
#[verifier::reject_recursive_types(T)]
pub struct Secondary<T> {
    inner: RawSecondary<T>,
    items: Ghost<Map<DefaultKey, T>>,
}

impl<T> View for Secondary<T> {
    type V = Map<DefaultKey, T>;

    closed spec fn view(&self) -> Map<DefaultKey, T> {
        self.items@
    }
}

impl<T> Secondary<T> {
    /// The items are finitely many.
    #[verifier::type_invariant]
    spec fn well_formed(&self) -> bool {
        self.items@.dom().finite()
    }
}

/// Relies on `SecondaryMap::new`: an empty secondary map.
#[verifier::external_body]
fn secondary_new<T>() -> (r: Secondary<T>)
    ensures
        r@.is_empty(),
{
    Secondary { inner: RawSecondary { map: SecondaryMap::new() }, items: Ghost(Map::empty()) }
}

/// Relies on `SecondaryMap::with_capacity`: an empty secondary map.
#[verifier::external_body]
fn secondary_with_capacity<T>(capacity: usize) -> (r: Secondary<T>)
    ensures
        r@.is_empty(),
{
    Secondary { inner: RawSecondary { map: SecondaryMap::with_capacity(capacity) }, items: Ghost(Map::empty()) }
}

/// Relies on `SecondaryMap::len`: the number of keys in use, finitely many.
#[verifier::external_body]
fn secondary_len<T>(s: &Secondary<T>) -> (r: usize)
    ensures
        map_has_count(s@, r as nat),
{
    s.inner.map.len()
}

/// Relies on `SecondaryMap::clear`: every key is released.
#[verifier::external_body]
fn secondary_clear<T>(s: &mut Secondary<T>)
    ensures
        final(s)@.is_empty(),
{
    s.inner.map.clear()
}

/// Relies on `SecondaryMap::contains_key`: whether a value is stored under `key`.
#[verifier::external_body]
fn secondary_contains<T>(s: &Secondary<T>, key: DefaultKey) -> (r: bool)
    ensures
        r == s@.contains_key(key),
{
    s.inner.map.contains_key(key)
}

/// Relies on `SecondaryMap::get`: the value stored under `key`, if any.
#[verifier::external_body]
fn secondary_get<T>(s: &Secondary<T>, key: DefaultKey) -> (r: Option<&T>)
    ensures
        match r {
            Some(v) => s@.contains_key(key) && *v == s@[key],
            None => !s@.contains_key(key),
        },
{
    s.inner.map.get(key)
}

/// Relies on `SecondaryMap::get_mut`: the value stored under `key`, if any; writing through
/// it changes that value only.
#[verifier::external_body]
fn secondary_get_mut<T>(s: &mut Secondary<T>, key: DefaultKey) -> (r: Option<&mut T>)
    ensures
        match r {
            Some(v) => {
                &&& old(s)@.contains_key(key)
                &&& *v == old(s)@[key]
                &&& final(s)@ == old(s)@.insert(key, *final(v))
            },
            None => {
                &&& !old(s)@.contains_key(key)
                &&& final(s)@ == old(s)@
            },
        },
{
    s.inner.map.get_mut(key)
}

/// Relies on `SecondaryMap::insert`: a key already present gets the new value and its old one
/// is returned. Otherwise `None` is returned, and the value is stored unless the key is
/// stale; storing it may drop an entry under an older key for the same slot.
#[verifier::external_body]
fn secondary_insert<T>(s: &mut Secondary<T>, key: DefaultKey, item: T) -> (r: Option<T>)
    ensures
        secondary_insert_outcome(old(s)@, key, item, final(s)@, r),
{
    s.inner.map.insert(key, item)
}

/// Relies on `SecondaryMap::remove`: the value under `key` is returned and the key
/// released, or `None` when the key designates nothing.
#[verifier::external_body]
fn secondary_remove<T>(s: &mut Secondary<T>, key: DefaultKey) -> (r: Option<T>)
    ensures
        match r {
            Some(v) => {
                &&& old(s)@.contains_key(key)
                &&& v == old(s)@[key]
                &&& final(s)@ == old(s)@.remove(key)
            },
            None => {
                &&& !old(s)@.contains_key(key)
                &&& final(s)@ == old(s)@
            },
        },
{
    s.inner.map.remove(key)
}

impl<T> Secondary<T> {
    pub fn new() -> (r: Self)
        ensures
            r@ == Map::<DefaultKey, T>::empty(),
    {
        let r = secondary_new();
        assert(r@ =~= Map::<DefaultKey, T>::empty());
        r
    }

    pub fn contains(&self, key: DefaultKey) -> (r: bool)
        ensures
            r == self@.contains_key(key),
    {
        secondary_contains(self, key)
    }
}

impl<T> Collection for Secondary<T> {
    type Item = T;

    type Model = Map<DefaultKey, T>;

    open spec fn model(&self) -> Map<DefaultKey, T> {
        self@
    }

    open spec fn obeys_model() -> bool {
        true
    }

    open spec fn spec_len(&self) -> nat {
        self@.len()
    }

    open spec fn empty_model() -> Self::Model {
        Map::empty()
    }

    open spec fn spec_capacity(&self) -> Option<nat> {
        None
    }
}

impl<T> Keyed for Secondary<T> {
    type Key = DefaultKey;
}

impl<T> Len for Secondary<T> {
    fn len(&self) -> (r: usize) {
        secondary_len(self)
    }
}

impl<T> WithCapacity for Secondary<T> {
    fn with_capacity(capacity: usize) -> (r: Self) {
        let r = secondary_with_capacity(capacity);
        assert(r@ =~= Map::<DefaultKey, T>::empty());
        r
    }
}

impl<T> Clear for Secondary<T> {
    fn clear(&mut self) {
        secondary_clear(self);
        assert(self@ =~= Map::<DefaultKey, T>::empty());
    }
}

impl<T> Lookup<DefaultKey> for Secondary<T> {
    open spec fn spec_get(&self, key: DefaultKey) -> Option<T> {
        if self@.contains_key(key) {
            Some(self@[key])
        } else {
            None
        }
    }

    proof fn lemma_empty_designates_nothing(&self, key: DefaultKey) {
    }
}

impl<T> Get<DefaultKey> for Secondary<T> {
    fn get(&self, key: DefaultKey) -> (r: Option<&T>) {
        secondary_get(self, key)
    }
}

impl<T> GetMut<DefaultKey> for Secondary<T> {
    open spec fn spec_set(&self, key: DefaultKey, item: T) -> Map<DefaultKey, T> {
        self@.insert(key, item)
    }

    fn get_mut(&mut self, key: DefaultKey) -> (r: Option<&mut T>) {
        secondary_get_mut(self, key)
    }
}

impl<T> MapInsert<DefaultKey> for Secondary<T> {
    type Output = Option<T>;

    open spec fn spec_map_insert(
        &self,
        key: DefaultKey,
        value: T,
        after: Map<DefaultKey, T>,
        out: Option<T>,
    ) -> bool {
        secondary_insert_outcome(self@, key, value, after, out)
    }

    fn insert(&mut self, key: DefaultKey, value: T) -> (r: Option<T>) {
        secondary_insert(self, key, value)
    }
}

impl<T> Remove<DefaultKey> for Secondary<T> {
    /// Keyed removal: the key is released, other keys keep their items.
    open spec fn spec_remove(&self, key: DefaultKey) -> Map<DefaultKey, T> {
        self@.remove(key)
    }

    fn remove(&mut self, key: DefaultKey) -> (r: Option<T>) {
        proof {
            use_type_invariant(&*self);
        }
        secondary_remove(self, key)
    }
}

} // verus!
