use vstd::prelude::*;

use crate::capabilities::{
    Capacity, Clear, Collection, Get, GetMut, Len, Lookup, Remove, Reserve, WithCapacity,
};
use crate::positional::{Iter, PopBack, PushBack, Sequence};

verus! {

/// Relies on `Vec::capacity`: the number of items it can hold without reallocating,
/// which covers the items it holds.
#[verifier::external_body]
fn vec_capacity<T>(v: &Vec<T>) -> (r: usize)
    ensures
        r >= v@.len(),
{
    v.capacity()
}

impl<T> Collection for Vec<T> {
    type Item = T;

    type Model = Seq<T>;

    open spec fn model(&self) -> Seq<T> {
        self@
    }

    open spec fn obeys_model() -> bool {
        true
    }

    open spec fn spec_len(&self) -> nat {
        self@.len()
    }

    open spec fn empty_model() -> Self::Model {
        Seq::empty()
    }

    /// Allocator state, not followed by the model.
    open spec fn spec_capacity(&self) -> Option<nat> {
        None
    }
}

impl<T> Sequence for Vec<T> {
    open spec fn items(&self) -> Seq<T> {
        self@
    }
}

impl<T> Len for Vec<T> {
    fn len(&self) -> (r: usize) {
        Vec::len(self)
    }

    fn is_empty(&self) -> (r: bool) {
        Vec::is_empty(self)
    }
}

impl<T> Capacity for Vec<T> {
    fn capacity(&self) -> (r: usize) {
        vec_capacity(self)
    }
}

impl<T> WithCapacity for Vec<T> {
    fn with_capacity(capacity: usize) -> (r: Self) {
        Vec::with_capacity(capacity)
    }
}

impl<T> Reserve for Vec<T> {
    fn reserve(&mut self, additional: usize) {
        Vec::reserve(self, additional)
    }
}

impl<T> Clear for Vec<T> {
    fn clear(&mut self) {
        Vec::clear(self)
    }
}

impl<T> Lookup<usize> for Vec<T> {
    open spec fn spec_get(&self, key: usize) -> Option<T> {
        if key < self@.len() {
            Some(self@[key as int])
        } else {
            None
        }
    }

    proof fn lemma_empty_designates_nothing(&self, key: usize) {
    }
}

impl<T> Get<usize> for Vec<T> {
    fn get(&self, key: usize) -> (r: Option<&T>) {
        if key < Vec::len(self) {
            Some(&self[key])
        } else {
            None
        }
    }
}

impl<T> GetMut<usize> for Vec<T> {
    open spec fn spec_set(&self, key: usize, item: T) -> Seq<T> {
        self@.update(key as int, item)
    }

    fn get_mut(&mut self, key: usize) -> (r: Option<&mut T>) {
        if key < Vec::len(self) {
            Some(&mut self[key])
        } else {
            None
        }
    }
}

impl<T> Remove<usize> for Vec<T> {
    /// Positional removal: the items after `key` move one place towards the front.
    open spec fn spec_remove(&self, key: usize) -> Seq<T> {
        self@.remove(key as int)
    }

    fn remove(&mut self, key: usize) -> (r: Option<T>) {
        if key < Vec::len(self) {
            Some(Vec::remove(self, key))
        } else {
            None
        }
    }
}

impl<T> PushBack for Vec<T> {
    type Output = ();

    /// Appended at the back.
    open spec fn spec_push_back(&self, item: T) -> Seq<T> {
        self@.push(item)
    }

    fn push_back(&mut self, item: T) {
        self.push(item)
    }
}

impl<T> PopBack for Vec<T> {
    fn pop_back(&mut self) -> (r: Option<T>) {
        self.pop()
    }
}

impl<T> Iter for Vec<T> {
    /// Front to back.
    open spec fn spec_traversal(&self, items: Seq<T>) -> bool {
        items == self@
    }

    fn iter(&self) -> (r: Vec<&T>) {
        let mut out: Vec<&T> = Vec::new();
        let mut i: usize = 0;
        while i < Vec::len(self)
            invariant
                i <= self@.len(),
                out@.len() == i,
                forall|j: int| 0 <= j < i ==> *out@[j] == self@[j],
            decreases self@.len() - i,
        {
            out.push(&self[i]);
            i = i + 1;
        }
        assert(out@.unref() =~= self@);
        out
    }
}

} // verus!
