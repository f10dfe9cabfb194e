use vstd::prelude::*;

use std::collections::hash_map::RandomState;
use std::collections::HashSet;
use std::hash::Hash;
use vstd::std_specs::hash::{
    builds_valid_hashers, into_iter_hash_keys, obeys_key_model,
    spec_hash_keys_iter,
};
use vstd::std_specs::iter::IteratorSpec;

use crate::capabilities::{
    set_has_count, Capacity, Clear, Collection, Get, Insert, Len, Lookup, Remove, Reserve,
    WithCapacity,
};
use crate::positional::Iter;
use crate::traverse::advance;

verus! {

/// Relies on `HashSet::capacity`: the number of items it can hold without reallocating,
/// which covers the items it holds.
#[verifier::external_body]
fn hash_set_capacity<T>(s: &HashSet<T>) -> (r: usize)
    ensures
        obeys_key_model::<T>() && builds_valid_hashers::<RandomState>() ==> r >= s@.len(),
{
    s.capacity()
}

/// Relies on `HashSet::take`: removes and returns the stored item equal to `item`,
/// or returns `None` and changes nothing when there is none.
#[verifier::external_body]
fn hash_set_take<T: Hash + Eq>(s: &mut HashSet<T>, item: &T) -> (r: Option<T>)
    ensures
        obeys_key_model::<T>() && builds_valid_hashers::<RandomState>() ==> match r {
            Some(v) => {
                &&& old(s)@.contains(*item)
                &&& v == *item
                &&& final(s)@ == old(s)@.remove(*item)
            },
            None => {
                &&& !old(s)@.contains(*item)
                &&& final(s)@ == old(s)@
            },
        },
{
    s.take(item)
}

/// Relies on `HashSet::len`: the number of items the set holds, so there are finitely many.
#[verifier::external_body]
fn hash_set_len<T>(s: &HashSet<T>) -> (r: usize)
    ensures
        obeys_key_model::<T>() && builds_valid_hashers::<RandomState>() ==> set_has_count(s@, r as nat),
{
    s.len()
}

impl<T> Collection for HashSet<T> {
    type Item = T;

    type Model = Set<T>;

    open spec fn model(&self) -> Set<T> {
        self@
    }

    open spec fn obeys_model() -> bool {
        obeys_key_model::<T>() && builds_valid_hashers::<RandomState>()
    }

    open spec fn spec_len(&self) -> nat {
        self@.len()
    }

    open spec fn empty_model() -> Self::Model {
        Set::empty()
    }

    /// Allocator state, not followed by the model.
    open spec fn spec_capacity(&self) -> Option<nat> {
        None
    }
}

impl<T> Len for HashSet<T> {
    fn len(&self) -> (r: usize) {
        hash_set_len(self)
    }
}

impl<T> Capacity for HashSet<T> {
    fn capacity(&self) -> (r: usize) {
        hash_set_capacity(self)
    }
}

impl<T> WithCapacity for HashSet<T> {
    fn with_capacity(capacity: usize) -> (r: Self) {
        HashSet::with_capacity(capacity)
    }
}

impl<T: Hash + Eq> Reserve for HashSet<T> {
    fn reserve(&mut self, additional: usize) {
        HashSet::reserve(self, additional)
    }
}

impl<T> Clear for HashSet<T> {
    fn clear(&mut self) {
        HashSet::clear(self)
    }
}

impl<'a, T> Lookup<&'a T> for HashSet<T> {
    /// A set designates the stored item equal to the query.
    open spec fn spec_get(&self, key: &'a T) -> Option<T> {
        if self@.contains(*key) {
            Some(*key)
        } else {
            None
        }
    }

    proof fn lemma_empty_designates_nothing(&self, key: &'a T) {
    }
}

impl<'a, T: Hash + Eq> Get<&'a T> for HashSet<T> {
    fn get(&self, key: &'a T) -> (r: Option<&T>) {
        HashSet::get(self, key)
    }
}

impl<T: Hash + Eq> Insert for HashSet<T> {
    /// Whether the item was not in the set before.
    type Output = bool;

    /// The item joins the set; the report says whether it was new.
    open spec fn spec_insert(&self, item: T, after: Set<T>, out: bool) -> bool {
        after == self@.insert(item) && out == !self@.contains(item)
    }

    open spec fn spec_insert_len(&self, item: T) -> nat {
        if self@.contains(item) {
            self@.len()
        } else {
            self@.len() + 1
        }
    }

    open spec fn spec_has_room(&self) -> bool {
        true
    }

    fn insert(&mut self, item: T) -> (r: bool) {
        let _count: usize = hash_set_len(self);
        HashSet::insert(self, item)
    }
}

impl<'a, T: Hash + Eq> Remove<&'a T> for HashSet<T> {
    open spec fn spec_remove(&self, key: &'a T) -> Set<T> {
        self@.remove(*key)
    }

    fn remove(&mut self, key: &'a T) -> (r: Option<T>) {
        let _count: usize = hash_set_len(self);
        hash_set_take(self, key)
    }
}

impl<T: Hash + Eq> Iter for HashSet<T> {
    /// Each item once, in the order of the set's own traversal, which is the same on
    /// every call while the set is unchanged.
    open spec fn spec_traversal(&self, items: Seq<T>) -> bool {
        &&& items == into_iter_hash_keys(spec_hash_keys_iter(self))
        &&& items.no_duplicates()
        &&& items.to_set() == self@
    }

    fn iter(&self) -> (r: Vec<&T>) {
        let n: usize = hash_set_len(self);
        let mut it = HashSet::iter(self);
        let ghost all = spec_hash_keys_iter(self).remaining();
        let ghost facts = Self::obeys_model() ==> {
            &&& all.no_duplicates()
            &&& all.unref().to_set() == self@
            &&& into_iter_hash_keys(spec_hash_keys_iter(self)) == all.unref()
        };
        assert(facts);
        let mut out: Vec<&T> = Vec::new();
        let mut i: usize = 0;
        while i < n
            invariant
                i <= n,
                facts,
                it.obeys_prophetic_iter_laws(),
                Self::obeys_model() ==> {
                    &&& all == out@ + it.remaining()
                    &&& it.remaining().len() == n - i
                },
            decreases n - i,
        {
            match advance(&mut it) {
                Some(x) => {
                    out.push(x);
                },
                None => {},
            }
            i = i + 1;
        }
        proof {
            if Self::obeys_model() {
                assert(out@ =~= all);
                assert forall|i: int, j: int| 0 <= i < j < out@.len() implies out@.unref()[i]
                    != out@.unref()[j] by {
                    assert(all[i] != all[j]);
                }
            }
        }
        out
    }
}

} // verus!
