use vstd::prelude::*;

use slotmap::{DefaultKey, SlotMap};

use crate::capabilities::{
    map_has_count, Capacity, Clear, Collection, Get, GetMut, Insert, Keyed, Len, Lookup, Remove,
    Reserve, WithCapacity,
};

verus! {

#[verifier::external_type_specification]
#[verifier::external_body]
pub struct ExDefaultKey(DefaultKey);

/// The slot map itself, kept out of Verus's sight: its type carries a bound of
/// slotmap's `Key` trait, which Verus refuses in a declaration.
#[verifier::external_body]
#[verifier::reject_recursive_types(T)]
struct RawSlots<T> {
    map: SlotMap<DefaultKey, T>,
}

/// A slot map: each inserted item is stored under a fresh key that the map picks; a
/// removed key never designates an item again.
///
/// Its abstract value is the map from the keys in use to their items; the methods
/// below are the slot map's own, each stated over that map.
#[verifier::reject_recursive_types(T)]
pub struct Slots<T> {
    inner: RawSlots<T>,
    items: Ghost<Map<DefaultKey, T>>,
    cap: Ghost<nat>,
}

impl<T> View for Slots<T> {
    type V = Map<DefaultKey, T>;

    closed spec fn view(&self) -> Map<DefaultKey, T> {
        self.items@
    }
}

impl<T> Slots<T> {
    /// The items are finitely many and fit in the reserved storage.
    #[verifier::type_invariant]
    spec fn well_formed(&self) -> bool {
        &&& self.items@.dom().finite()
        &&& self.items@.len() <= self.cap@
    }

    /// The number of items the storage holds without reallocating.
    pub closed spec fn spec_cap(&self) -> nat {
        self.cap@
    }
}

/// Relies on `SlotMap::new`: an empty slot map.
#[verifier::external_body]
fn slots_new<T>() -> (r: Slots<T>)
    ensures
        r@.is_empty(),
{
    Slots { inner: RawSlots { map: SlotMap::new() }, items: Ghost(Map::empty()), cap: Ghost(0) }
}

/// Relies on `SlotMap::with_capacity`: an empty slot map.
#[verifier::external_body]
fn slots_with_capacity<T>(capacity: usize) -> (r: Slots<T>)
    ensures
        r@.is_empty(),
        r.spec_cap() >= capacity,
{
    Slots { inner: RawSlots { map: SlotMap::with_capacity(capacity) }, items: Ghost(Map::empty()),
        cap: Ghost(capacity as nat) }
}

/// Relies on `SlotMap::len`: the number of keys in use, finitely many.
#[verifier::external_body]
fn slots_len<T>(s: &Slots<T>) -> (r: usize)
    ensures
        map_has_count(s@, r as nat),
{
    s.inner.map.len()
}

/// Relies on `SlotMap::capacity`: the storage for values, which covers the stored ones.
#[verifier::external_body]
fn slots_capacity<T>(s: &Slots<T>) -> (r: usize)
    ensures
        r == s.spec_cap(),
{
    s.inner.map.capacity()
}

/// Relies on `SlotMap::reserve`: storage grows to hold `additional` more values,
/// and the stored values stay.
#[verifier::external_body]
fn slots_reserve<T>(s: &mut Slots<T>, additional: usize)
    ensures
        final(s)@ == old(s)@,
        final(s).spec_cap() >= final(s)@.len() + additional,
{
    s.inner.map.reserve(additional)
}

/// Relies on `SlotMap::clear`: every key is released.
#[verifier::external_body]
fn slots_clear<T>(s: &mut Slots<T>)
    ensures
        final(s)@.is_empty(),
{
    s.inner.map.clear()
}

/// Relies on `SlotMap::contains_key`: whether a value is stored under `key`.
#[verifier::external_body]
fn slots_contains<T>(s: &Slots<T>, key: DefaultKey) -> (r: bool)
    ensures
        r == s@.contains_key(key),
{
    s.inner.map.contains_key(key)
}

/// Relies on `SlotMap::get`: the value stored under `key`, if any.
#[verifier::external_body]
fn slots_get<T>(s: &Slots<T>, key: DefaultKey) -> (r: Option<&T>)
    ensures
        match r {
            Some(v) => s@.contains_key(key) && *v == s@[key],
            None => !s@.contains_key(key),
        },
{
    s.inner.map.get(key)
}

/// Relies on `SlotMap::get_mut`: the value stored under `key`, if any; writing through
/// it changes that value only.
#[verifier::external_body]
fn slots_get_mut<T>(s: &mut Slots<T>, key: DefaultKey) -> (r: Option<&mut T>)
    ensures
        match r {
            Some(v) => {
                &&& old(s)@.contains_key(key)
                &&& *v == old(s)@[key]
                &&& final(s)@ == old(s)@.insert(key, *final(v))
            },
            None => {
                &&& !old(s)@.contains_key(key)
                &&& final(s)@ == old(s)@
            },
        },
{
    s.inner.map.get_mut(key)
}

/// Relies on `SlotMap::insert`: the value goes under a key that was not in use, which
/// is returned.
#[verifier::external_body]
fn slots_insert<T>(s: &mut Slots<T>, item: T) -> (r: DefaultKey)
    requires
        old(s)@.len() < 4294967294,
    ensures
        !old(s)@.contains_key(r),
        final(s)@ == old(s)@.insert(r, item),
{
    s.inner.map.insert(item)
}

/// Relies on `SlotMap::remove`: the value under `key` is returned and the key
/// released, or `None` when the key designates nothing.
#[verifier::external_body]
fn slots_remove<T>(s: &mut Slots<T>, key: DefaultKey) -> (r: Option<T>)
    ensures
        match r {
            Some(v) => {
                &&& old(s)@.contains_key(key)
                &&& v == old(s)@[key]
                &&& final(s)@ == old(s)@.remove(key)
            },
            None => {
                &&& !old(s)@.contains_key(key)
                &&& final(s)@ == old(s)@
            },
        },
{
    s.inner.map.remove(key)
}

impl<T> Slots<T> {
    pub fn new() -> (r: Self)
        ensures
            r@ == Map::<DefaultKey, T>::empty(),
    {
        let r = slots_new();
        assert(r@ =~= Map::<DefaultKey, T>::empty());
        r
    }

    pub fn contains(&self, key: DefaultKey) -> (r: bool)
        ensures
            r == self@.contains_key(key),
    {
        slots_contains(self, key)
    }
}

impl<T> Collection for Slots<T> {
    type Item = T;

    type Model = Map<DefaultKey, T>;

    open spec fn model(&self) -> Map<DefaultKey, T> {
        self@
    }

    open spec fn obeys_model() -> bool {
        true
    }

    open spec fn spec_len(&self) -> nat {
        self@.len()
    }

    open spec fn empty_model() -> Self::Model {
        Map::empty()
    }

    open spec fn spec_capacity(&self) -> Option<nat> {
        Some(self.spec_cap())
    }
}

impl<T> Keyed for Slots<T> {
    type Key = DefaultKey;
}

impl<T> Len for Slots<T> {
    fn len(&self) -> (r: usize) {
        slots_len(self)
    }
}

impl<T> Capacity for Slots<T> {
    fn capacity(&self) -> (r: usize) {
        proof {
            use_type_invariant(self);
        }
        slots_capacity(self)
    }
}

impl<T> WithCapacity for Slots<T> {
    fn with_capacity(capacity: usize) -> (r: Self) {
        let r = slots_with_capacity(capacity);
        assert(r@ =~= Map::<DefaultKey, T>::empty());
        r
    }
}

impl<T> Reserve for Slots<T> {
    fn reserve(&mut self, additional: usize) {
        slots_reserve(self, additional)
    }
}

impl<T> Clear for Slots<T> {
    fn clear(&mut self) {
        slots_clear(self);
        assert(self@ =~= Map::<DefaultKey, T>::empty());
    }
}

impl<T> Lookup<DefaultKey> for Slots<T> {
    open spec fn spec_get(&self, key: DefaultKey) -> Option<T> {
        if self@.contains_key(key) {
            Some(self@[key])
        } else {
            None
        }
    }

    proof fn lemma_empty_designates_nothing(&self, key: DefaultKey) {
    }
}

impl<T> Get<DefaultKey> for Slots<T> {
    fn get(&self, key: DefaultKey) -> (r: Option<&T>) {
        slots_get(self, key)
    }
}

impl<T> GetMut<DefaultKey> for Slots<T> {
    open spec fn spec_set(&self, key: DefaultKey, item: T) -> Map<DefaultKey, T> {
        self@.insert(key, item)
    }

    fn get_mut(&mut self, key: DefaultKey) -> (r: Option<&mut T>) {
        slots_get_mut(self, key)
    }
}

impl<T> Insert for Slots<T> {
    /// The key the item was stored under.
    type Output = DefaultKey;

    /// The map picks a key not in use and stores the item under it.
    open spec fn spec_insert(&self, item: T, after: Map<DefaultKey, T>, out: DefaultKey) -> bool {
        !self@.contains_key(out) && after == self@.insert(out, item)
    }

    open spec fn spec_insert_len(&self, item: T) -> nat {
        self@.len() + 1
    }

    /// A slot map holds fewer than `u32::MAX - 1` items.
    open spec fn spec_has_room(&self) -> bool {
        self@.len() < 4294967294
    }

    fn insert(&mut self, item: T) -> (r: DefaultKey) {
        proof {
            use_type_invariant(&*self);
        }
        slots_insert(self, item)
    }
}

impl<T> Remove<DefaultKey> for Slots<T> {
    /// Keyed removal: the key is released, other keys keep their items.
    open spec fn spec_remove(&self, key: DefaultKey) -> Map<DefaultKey, T> {
        self@.remove(key)
    }

    fn remove(&mut self, key: DefaultKey) -> (r: Option<T>) {
        proof {
            use_type_invariant(&*self);
        }
        slots_remove(self, key)
    }
}

} // verus!
