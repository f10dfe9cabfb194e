use vstd::prelude::*;

verus! {

/// A container of items.
///
/// Every capability below is stated over the container's abstract value, `model`,
/// and over a few spec functions that each container defines on it.
pub trait Collection {
    /// The type of the items the container holds.
    type Item;

    /// The abstract value of the container (a sequence, a map or a set).
    type Model;

    spec fn model(&self) -> Self::Model;

    /// Holds when the item and key types behave as the model assumes:
    /// their `==`, `Hash` and `Ord` agree with equality of values.
    spec fn obeys_model() -> bool;

    /// Number of items held.
    spec fn spec_len(&self) -> nat;

    /// The abstract value of an empty container.
    spec fn empty_model() -> Self::Model;

    /// The reserved storage, where the container keeps track of it in its model; `None`
    /// where it is allocator state that the model does not follow.
    spec fn spec_capacity(&self) -> Option<nat>;
}

/// A set with finitely many items, `n` of them.
pub open spec fn set_has_count<T>(s: Set<T>, n: nat) -> bool {
    s.finite() && s.len() == n
}

/// A map with finitely many keys, `n` of them.
pub open spec fn map_has_count<K, V>(m: Map<K, V>, n: nat) -> bool {
    m.dom().finite() && m.len() == n
}

/// Whether `m` has a `String` key with the characters `chars`.
pub open spec fn has_key_with_chars<V>(m: Map<String, V>, chars: Seq<char>) -> bool {
    exists|k: String| #[trigger] m.contains_key(k) && k@ == chars
}

/// The `String` key of `m` with the characters `chars` (meaningful when there is one).
pub open spec fn key_with_chars<V>(m: Map<String, V>, chars: Seq<char>) -> String {
    choose|k: String| #[trigger] m.contains_key(k) && k@ == chars
}

/// What inserting `value` under `key` into a secondary map may do: a present key gets the
/// new value and its old one is returned; otherwise `None` is returned and either nothing
/// changes (a stale key) or the value is stored, possibly in place of an entry under
/// another key.
pub open spec fn secondary_insert_outcome<K, V>(
    before: Map<K, V>,
    key: K,
    value: V,
    after: Map<K, V>,
    out: Option<V>,
) -> bool {
    match out {
        Some(old_value) => {
            &&& before.contains_key(key)
            &&& old_value == before[key]
            &&& after == before.insert(key, value)
        },
        None => {
            &&& !before.contains_key(key)
            &&& {
                ||| after == before
                ||| after == before.insert(key, value)
                ||| exists|other: K|
                    #[trigger] before.contains_key(other) && after == before.remove(other).insert(
                        key,
                        value,
                    )
            }
        },
    }
}

/// Containers whose items are addressed by an explicit key.
pub trait Keyed: Collection {
    /// The type of the keys.
    type Key;
}

/// Containers that know how many items they hold.
pub trait Len: Collection {
    fn len(&self) -> (r: usize)
        ensures
            Self::obeys_model() ==> r as nat == self.spec_len(),
    ;

    fn is_empty(&self) -> (r: bool)
        ensures
            Self::obeys_model() ==> r == (self.spec_len() == 0),
    {
        self.len() == 0
    }
}

/// Containers with reserved storage.
///
/// The capacity is never below the length; where the model follows it, it is exact.
pub trait Capacity: Collection {
    fn capacity(&self) -> (r: usize)
        ensures
            Self::obeys_model() ==> r as nat >= self.spec_len(),
            self.spec_capacity() matches Some(c) ==> r == c,
    ;
}

/// Containers that can be built empty with storage reserved up front.
pub trait WithCapacity: Collection + Sized {
    fn with_capacity(capacity: usize) -> (r: Self)
        ensures
            Self::obeys_model() ==> r.model() == Self::empty_model() && r.spec_len() == 0,
            r.spec_capacity() matches Some(c) ==> c >= capacity,
    ;
}

/// Containers whose storage can be grown ahead of insertions.
pub trait Reserve: Collection {
    fn reserve(&mut self, additional: usize)
        ensures
            final(self).model() == old(self).model(),
            final(self).spec_len() == old(self).spec_len(),
            final(self).spec_capacity() matches Some(c) ==> c >= final(self).spec_len()
                + additional,
    ;
}

/// What a key (an index, or a reference to a stored key) designates in a container.
pub trait Lookup<T>: Collection {
    spec fn spec_get(&self, key: T) -> Option<Self::Item>;

    /// An empty container designates nothing.
    proof fn lemma_empty_designates_nothing(&self, key: T)
        requires
            self.model() == Self::empty_model(),
        ensures
            self.spec_get(key) is None,
    ;
}

/// Lookup of an item by key. Absent keys give `None`.
pub trait Get<T>: Lookup<T> {
    fn get(&self, key: T) -> (r: Option<&Self::Item>)
        ensures
            Self::obeys_model() ==> match r {
                Some(v) => self.spec_get(key) == Some(*v),
                None => self.spec_get(key) is None,
            },
    ;
}

/// Mutable lookup of an item by key. Absent keys give `None`.
pub trait GetMut<T>: Lookup<T> {
    /// The model after the item designated by `key` is replaced by `item`.
    spec fn spec_set(&self, key: T, item: Self::Item) -> Self::Model;

    fn get_mut(&mut self, key: T) -> (r: Option<&mut Self::Item>)
        ensures
            Self::obeys_model() ==> match r {
                Some(v) => {
                    &&& old(self).spec_get(key) == Some(*v)
                    &&& final(self).model() == old(self).spec_set(key, *final(v))
                },
                None => {
                    &&& old(self).spec_get(key) is None
                    &&& final(self).model() == old(self).model()
                },
            },
    ;
}

/// Lookup of the stored key together with its item.
pub trait GetKeyValue<T>: Keyed + Lookup<T> {
    /// The stored key that `key` designates.
    spec fn spec_get_key(&self, key: T) -> Option<Self::Key>;

    fn get_key_value(&self, key: T) -> (r: Option<(&Self::Key, &Self::Item)>)
        ensures
            Self::obeys_model() ==> match r {
                Some(kv) => {
                    &&& self.spec_get(key) == Some(*kv.1)
                    &&& self.spec_get_key(key) == Some(*kv.0)
                },
                None => {
                    &&& self.spec_get(key) is None
                    &&& self.spec_get_key(key) is None
                },
            },
    ;
}

/// Insertion where the container decides where the item goes.
pub trait Insert: Collection {
    /// What the insertion reports (whether the item was new, or where it went).
    type Output;

    /// Whether `after` and `out` are a model and a report that inserting `item` may give.
    spec fn spec_insert(&self, item: Self::Item, after: Self::Model, out: Self::Output) -> bool;

    /// The number of items after inserting `item`.
    spec fn spec_insert_len(&self, item: Self::Item) -> nat;

    /// Whether the container can take one more item (a bounded container may be full).
    spec fn spec_has_room(&self) -> bool;

    fn insert(&mut self, item: Self::Item) -> (r: Self::Output)
        requires
            old(self).spec_has_room(),
        ensures
            Self::obeys_model() ==> old(self).spec_insert(item, final(self).model(), r),
            Self::obeys_model() ==> final(self).spec_len() == old(self).spec_insert_len(item),
    ;
}

/// Insertion under a key chosen by the caller; the previous item under that key is returned.
pub trait MapInsert<K>: Collection {
    type Output;

    /// Whether `after` and `out` are a model and a returned value that inserting `value`
    /// under `key` may give.
    spec fn spec_map_insert(
        &self,
        key: K,
        value: Self::Item,
        after: Self::Model,
        out: Self::Output,
    ) -> bool;

    fn insert(&mut self, key: K, value: Self::Item) -> (r: Self::Output)
        ensures
            Self::obeys_model() ==> old(self).spec_map_insert(key, value, final(self).model(), r),
    ;
}

/// Removal of the item that a key designates. Absent keys give `None` and change nothing.
pub trait Remove<T>: Lookup<T> {
    /// The model after removing what `key` designates.
    spec fn spec_remove(&self, key: T) -> Self::Model;

    fn remove(&mut self, key: T) -> (r: Option<Self::Item>)
        ensures
            Self::obeys_model() ==> match r {
                Some(v) => {
                    &&& old(self).spec_get(key) == Some(v)
                    &&& final(self).model() == old(self).spec_remove(key)
                    &&& final(self).spec_len() + 1 == old(self).spec_len()
                },
                None => {
                    &&& old(self).spec_get(key) is None
                    &&& final(self).model() == old(self).model()
                    &&& final(self).spec_len() == old(self).spec_len()
                },
            },
    ;
}

/// Traversal of the key/item pairs of a keyed container: each pair once, in the
/// container's own order; each call starts afresh.
pub trait MapIter: Keyed {
    /// The pairs of the container, as a map from keys to items.
    spec fn spec_entries(&self) -> Map<Self::Key, Self::Item>;

    /// Whether `keys` stand in the order in which the container hands its pairs out.
    spec fn spec_in_order(&self, keys: Seq<Self::Key>) -> bool;

    fn iter(&self) -> (r: Vec<(&Self::Key, &Self::Item)>)
        ensures
            Self::obeys_model() ==> {
                &&& r@.len() == self.spec_entries().len()
                &&& forall|i: int|
                    0 <= i < r@.len() ==> #[trigger] self.spec_entries().contains_key(*r@[i].0)
                        && self.spec_entries()[*r@[i].0] == *r@[i].1
                &&& forall|i: int, j: int|
                    0 <= i < j < r@.len() ==> *(#[trigger] r@[i]).0 != *(#[trigger] r@[j]).0
                &&& self.spec_in_order(r@.map_values(|kv: (&Self::Key, &Self::Item)| *kv.0))
            },
    ;
}

/// Removal of every item.
pub trait Clear: Collection {
    fn clear(&mut self)
        ensures
            Self::obeys_model() ==> final(self).model() == Self::empty_model(),
            Self::obeys_model() ==> final(self).spec_len() == 0,
    ;
}

} // verus!
