use vstd::prelude::*;

use std::collections::BTreeSet;
use vstd::std_specs::btree::{into_iter_btree_keys, key_obeys_cmp_spec, spec_btree_keys_iter};
use vstd::std_specs::iter::IteratorSpec;

use crate::capabilities::{set_has_count, Clear, Collection, Get, Insert, Len, Lookup, Remove};
use crate::positional::Iter;
use crate::traverse::advance;

verus! {

/// Relies on `BTreeSet::take`: removes and returns the stored item equal to `item`,
/// or returns `None` and changes nothing when there is none.
#[verifier::external_body]
fn btree_set_take<T: Ord>(s: &mut BTreeSet<T>, item: &T) -> (r: Option<T>)
    ensures
        key_obeys_cmp_spec::<T>() ==> match r {
            Some(v) => {
                &&& old(s)@.contains(*item)
                &&& v == *item
                &&& final(s)@ == old(s)@.remove(*item)
            },
            None => {
                &&& !old(s)@.contains(*item)
                &&& final(s)@ == old(s)@
            },
        },
{
    s.take(item)
}

/// Relies on `BTreeSet::len`: the number of items the set holds, so there are finitely many.
#[verifier::external_body]
fn btree_set_len<T>(s: &BTreeSet<T>) -> (r: usize)
    ensures
        key_obeys_cmp_spec::<T>() ==> set_has_count(s@, r as nat),
{
    s.len()
}

impl<T> Collection for BTreeSet<T> {
    type Item = T;

    type Model = Set<T>;

    open spec fn model(&self) -> Set<T> {
        self@
    }

    open spec fn obeys_model() -> bool {
        key_obeys_cmp_spec::<T>()
    }

    open spec fn spec_len(&self) -> nat {
        self@.len()
    }

    open spec fn empty_model() -> Self::Model {
        Set::empty()
    }

    /// Allocator state, not followed by the model.
    open spec fn spec_capacity(&self) -> Option<nat> {
        None
    }
}

impl<T> Len for BTreeSet<T> {
    fn len(&self) -> (r: usize) {
        btree_set_len(self)
    }
}

impl<T> Clear for BTreeSet<T> {
    fn clear(&mut self) {
        BTreeSet::clear(self)
    }
}

impl<'a, T> Lookup<&'a T> for BTreeSet<T> {
    /// A set designates the stored item equal to the query.
    open spec fn spec_get(&self, key: &'a T) -> Option<T> {
        if self@.contains(*key) {
            Some(*key)
        } else {
            None
        }
    }

    proof fn lemma_empty_designates_nothing(&self, key: &'a T) {
    }
}

impl<'a, T: Ord> Get<&'a T> for BTreeSet<T> {
    fn get(&self, key: &'a T) -> (r: Option<&T>) {
        BTreeSet::get(self, key)
    }
}

impl<T: Ord> Insert for BTreeSet<T> {
    /// Whether the item was not in the set before.
    type Output = bool;

    /// The item joins the set; the report says whether it was new.
    open spec fn spec_insert(&self, item: T, after: Set<T>, out: bool) -> bool {
        after == self@.insert(item) && out == !self@.contains(item)
    }

    open spec fn spec_insert_len(&self, item: T) -> nat {
        if self@.contains(item) {
            self@.len()
        } else {
            self@.len() + 1
        }
    }

    open spec fn spec_has_room(&self) -> bool {
        true
    }

    fn insert(&mut self, item: T) -> (r: bool) {
        let _count: usize = btree_set_len(self);
        BTreeSet::insert(self, item)
    }
}

impl<'a, T: Ord> Remove<&'a T> for BTreeSet<T> {
    open spec fn spec_remove(&self, key: &'a T) -> Set<T> {
        self@.remove(*key)
    }

    fn remove(&mut self, key: &'a T) -> (r: Option<T>) {
        let _count: usize = btree_set_len(self);
        btree_set_take(self, key)
    }
}

impl<T: Ord> Iter for BTreeSet<T> {
    /// Each item once, in the order of the set's own traversal, which is the same on
    /// every call while the set is unchanged.
    open spec fn spec_traversal(&self, items: Seq<T>) -> bool {
        &&& items == into_iter_btree_keys(spec_btree_keys_iter(self))
        &&& items.no_duplicates()
        &&& items.to_set() == self@
    }

    fn iter(&self) -> (r: Vec<&T>) {
        let n: usize = btree_set_len(self);
        let mut it = BTreeSet::iter(self);
        let ghost all = spec_btree_keys_iter(self).remaining();
        let ghost facts = Self::obeys_model() ==> {
            &&& all.no_duplicates()
            &&& all.unref().to_set() == self@
            &&& into_iter_btree_keys(spec_btree_keys_iter(self)) == all.unref()
        };
        assert(facts);
        let mut out: Vec<&T> = Vec::new();
        let mut i: usize = 0;
        while i < n
            invariant
                i <= n,
                facts,
                it.obeys_prophetic_iter_laws(),
                Self::obeys_model() ==> {
                    &&& all == out@ + it.remaining()
                    &&& it.remaining().len() == n - i
                },
            decreases n - i,
        {
            match advance(&mut it) {
                Some(x) => {
                    out.push(x);
                },
                None => {},
            }
            i = i + 1;
        }
        proof {
            if Self::obeys_model() {
                assert(out@ =~= all);
                assert forall|i: int, j: int| 0 <= i < j < out@.len() implies out@.unref()[i]
                    != out@.unref()[j] by {
                    assert(all[i] != all[j]);
                }
            }
        }
        out
    }
}

} // verus!
