use vstd::multiset::Multiset;
use vstd::prelude::*;

use crate::capabilities::{Capacity, Clear, Collection, Len, Reserve, WithCapacity};
use crate::positional::{Front, PopFront, PushBack};

verus! {

broadcast use vstd::seq_lib::group_to_multiset_ensures;

/// A max-priority queue of integers: the front is always a greatest item.
///
/// Its abstract value is the multiset of items it holds; the order in which they sit in
/// storage is not part of it.
pub struct PriorityQueue {
    items: Vec<u64>,
}

impl View for PriorityQueue {
    type V = Multiset<u64>;

    closed spec fn view(&self) -> Multiset<u64> {
        self.items@.to_multiset()
    }
}

/// Whether `x` is a greatest item of `m`.
pub open spec fn is_greatest(m: Multiset<u64>, x: u64) -> bool {
    &&& m.contains(x)
    &&& forall|y: u64| #[trigger] m.contains(y) ==> y <= x
}

impl PriorityQueue {
    pub fn new() -> (r: Self)
        ensures
            r@ == Multiset::<u64>::empty(),
    {
        let r = PriorityQueue { items: Vec::new() };
        assert(r@ =~= Multiset::<u64>::empty());
        r
    }

    /// The position in storage of a greatest item.
    fn greatest_index(&self) -> (r: usize)
        requires
            self.items@.len() > 0,
        ensures
            r < self.items@.len(),
            is_greatest(self@, self.items@[r as int]),
    {
        let n: usize = self.items.len();
        let mut best: usize = 0;
        let mut i: usize = 1;
        while i < n
            invariant
                n == self.items@.len(),
                1 <= i <= n,
                best < i,
                forall|j: int| 0 <= j < i ==> self.items@[j] <= self.items@[best as int],
            decreases n - i,
        {
            if self.items[i] > self.items[best] {
                best = i;
            }
            i = i + 1;
        }
        proof {
            let s = self.items@;
            assert(s.contains(s[best as int]));
            assert forall|y: u64| #[trigger] self@.contains(y) implies y <= s[best as int] by {
                assert(s.contains(y));
                let j = choose|j: int| 0 <= j < s.len() && s[j] == y;
                assert(s[j] <= s[best as int]);
            }
        }
        best
    }
}

impl Collection for PriorityQueue {
    type Item = u64;

    type Model = Multiset<u64>;

    open spec fn model(&self) -> Multiset<u64> {
        self@
    }

    open spec fn obeys_model() -> bool {
        true
    }

    open spec fn spec_len(&self) -> nat {
        self@.len()
    }

    open spec fn empty_model() -> Self::Model {
        Multiset::empty()
    }

    /// Allocator state, not followed by the model.
    open spec fn spec_capacity(&self) -> Option<nat> {
        None
    }
}

impl Len for PriorityQueue {
    fn len(&self) -> (r: usize) {
        self.items.len()
    }
}

impl Capacity for PriorityQueue {
    fn capacity(&self) -> (r: usize) {
        Capacity::capacity(&self.items)
    }
}

impl WithCapacity for PriorityQueue {
    fn with_capacity(capacity: usize) -> (r: Self) {
        let r = PriorityQueue { items: Vec::with_capacity(capacity) };
        assert(r@ =~= Multiset::<u64>::empty());
        r
    }
}

impl Reserve for PriorityQueue {
    fn reserve(&mut self, additional: usize) {
        self.items.reserve(additional)
    }
}

impl Clear for PriorityQueue {
    fn clear(&mut self) {
        self.items.clear();
        assert(self@ =~= Multiset::<u64>::empty());
    }
}

impl Front for PriorityQueue {
    /// A greatest item.
    open spec fn spec_front(&self, item: Option<u64>) -> bool {
        match item {
            Some(x) => is_greatest(self@, x),
            None => self@.len() == 0,
        }
    }

    fn front(&self) -> (r: Option<&u64>) {
        if self.items.len() == 0 {
            None
        } else {
            let i: usize = self.greatest_index();
            Some(&self.items[i])
        }
    }
}

impl PopFront for PriorityQueue {
    /// A greatest item comes off.
    open spec fn spec_pop_front(&self, after: Multiset<u64>, out: Option<u64>) -> bool {
        match out {
            Some(x) => is_greatest(self@, x) && after == self@.remove(x),
            None => self@.len() == 0 && after == self@,
        }
    }

    fn pop_front(&mut self) -> (r: Option<u64>) {
        if self.items.len() == 0 {
            None
        } else {
            let i: usize = self.greatest_index();
            Some(self.items.remove(i))
        }
    }
}

impl PushBack for PriorityQueue {
    type Output = ();

    /// The item joins the queue.
    open spec fn spec_push_back(&self, item: u64) -> Multiset<u64> {
        self@.insert(item)
    }

    fn push_back(&mut self, item: u64) {
        self.items.push(item)
    }
}

} // verus!
