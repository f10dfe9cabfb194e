use vstd::prelude::*;

use std::collections::VecDeque;

use crate::capabilities::{
    Capacity, Clear, Collection, Get, GetMut, Len, Lookup, Remove, Reserve, WithCapacity,
};
use crate::positional::{
    Back, BackMut, Front, FrontMut, Iter, PopBack, PopFront, PushBack, PushFront, Sequence,
};

verus! {

/// Relies on `VecDeque::capacity`: the number of items it can hold without reallocating,
/// which covers the items it holds.
#[verifier::external_body]
fn deque_capacity<T>(d: &VecDeque<T>) -> (r: usize)
    ensures
        r >= d@.len(),
{
    d.capacity()
}

/// Relies on `VecDeque::get_mut`: a mutable reference to the item at `index`,
/// or `None` when `index` is past the end.
#[verifier::external_body]
fn deque_get_mut<T>(d: &mut VecDeque<T>, index: usize) -> (r: Option<&mut T>)
    ensures
        match r {
            Some(v) => {
                &&& index < old(d)@.len()
                &&& *v == old(d)@[index as int]
                &&& final(d)@ == old(d)@.update(index as int, *final(v))
            },
            None => {
                &&& index >= old(d)@.len()
                &&& final(d)@ == old(d)@
            },
        },
{
    d.get_mut(index)
}

impl<T> Collection for VecDeque<T> {
    type Item = T;

    type Model = Seq<T>;

    open spec fn model(&self) -> Seq<T> {
        self@
    }

    open spec fn obeys_model() -> bool {
        true
    }

    open spec fn spec_len(&self) -> nat {
        self@.len()
    }

    open spec fn empty_model() -> Self::Model {
        Seq::empty()
    }

    /// Allocator state, not followed by the model.
    open spec fn spec_capacity(&self) -> Option<nat> {
        None
    }
}

impl<T> Sequence for VecDeque<T> {
    open spec fn items(&self) -> Seq<T> {
        self@
    }
}

impl<T> Len for VecDeque<T> {
    fn len(&self) -> (r: usize) {
        VecDeque::len(self)
    }
}

impl<T> Capacity for VecDeque<T> {
    fn capacity(&self) -> (r: usize) {
        deque_capacity(self)
    }
}

impl<T> WithCapacity for VecDeque<T> {
    fn with_capacity(capacity: usize) -> (r: Self) {
        VecDeque::with_capacity(capacity)
    }
}

impl<T> Reserve for VecDeque<T> {
    fn reserve(&mut self, additional: usize) {
        VecDeque::reserve(self, additional)
    }
}

impl<T> Clear for VecDeque<T> {
    fn clear(&mut self) {
        VecDeque::clear(self)
    }
}

impl<T> Lookup<usize> for VecDeque<T> {
    open spec fn spec_get(&self, key: usize) -> Option<T> {
        if key < self@.len() {
            Some(self@[key as int])
        } else {
            None
        }
    }

    proof fn lemma_empty_designates_nothing(&self, key: usize) {
    }
}

impl<T> Get<usize> for VecDeque<T> {
    fn get(&self, key: usize) -> (r: Option<&T>) {
        if key < VecDeque::len(self) {
            Some(&self[key])
        } else {
            None
        }
    }
}

impl<T> GetMut<usize> for VecDeque<T> {
    open spec fn spec_set(&self, key: usize, item: T) -> Seq<T> {
        self@.update(key as int, item)
    }

    fn get_mut(&mut self, key: usize) -> (r: Option<&mut T>) {
        deque_get_mut(self, key)
    }
}

impl<T> Remove<usize> for VecDeque<T> {
    /// Positional removal: the items after `key` move one place towards the front.
    open spec fn spec_remove(&self, key: usize) -> Seq<T> {
        self@.remove(key as int)
    }

    fn remove(&mut self, key: usize) -> (r: Option<T>) {
        VecDeque::remove(self, key)
    }
}

impl<T> Front for VecDeque<T> {
    /// The first item.
    open spec fn spec_front(&self, item: Option<T>) -> bool {
        item == if self@.len() > 0 {
            Some(self@[0])
        } else {
            None
        }
    }

    fn front(&self) -> (r: Option<&T>) {
        if VecDeque::len(self) > 0 {
            Some(&self[0])
        } else {
            None
        }
    }
}

impl<T> Back for VecDeque<T> {
    fn back(&self) -> (r: Option<&T>) {
        let n: usize = VecDeque::len(self);
        if n > 0 {
            Some(&self[n - 1])
        } else {
            None
        }
    }
}

impl<T> FrontMut for VecDeque<T> {
    fn front_mut(&mut self) -> (r: Option<&mut T>) {
        deque_get_mut(self, 0)
    }
}

impl<T> BackMut for VecDeque<T> {
    fn back_mut(&mut self) -> (r: Option<&mut T>) {
        let n: usize = VecDeque::len(self);
        if n > 0 {
            deque_get_mut(self, n - 1)
        } else {
            None
        }
    }
}

impl<T> PushFront for VecDeque<T> {
    type Output = ();

    fn push_front(&mut self, item: T) {
        VecDeque::push_front(self, item)
    }
}

impl<T> PushBack for VecDeque<T> {
    type Output = ();

    /// Appended at the back.
    open spec fn spec_push_back(&self, item: T) -> Seq<T> {
        self@.push(item)
    }

    fn push_back(&mut self, item: T) {
        VecDeque::push_back(self, item)
    }
}

impl<T> PopFront for VecDeque<T> {
    /// The first item comes off.
    open spec fn spec_pop_front(&self, after: Seq<T>, out: Option<T>) -> bool {
        if self@.len() > 0 {
            out == Some(self@[0]) && after == self@.drop_first()
        } else {
            out is None && after == self@
        }
    }

    fn pop_front(&mut self) -> (r: Option<T>) {
        VecDeque::pop_front(self)
    }
}

impl<T> PopBack for VecDeque<T> {
    fn pop_back(&mut self) -> (r: Option<T>) {
        VecDeque::pop_back(self)
    }
}

impl<T> Iter for VecDeque<T> {
    /// Front to back.
    open spec fn spec_traversal(&self, items: Seq<T>) -> bool {
        items == self@
    }

    fn iter(&self) -> (r: Vec<&T>) {
        let mut out: Vec<&T> = Vec::new();
        let mut i: usize = 0;
        while i < VecDeque::len(self)
            invariant
                i <= self@.len(),
                out@.len() == i,
                forall|j: int| 0 <= j < i ==> *out@[j] == self@[j],
            decreases self@.len() - i,
        {
            out.push(&self[i]);
            i = i + 1;
        }
        assert(out@.unref() =~= self@);
        out
    }
}

} // verus!
