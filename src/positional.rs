use vstd::prelude::*;

use crate::capabilities::Collection;

verus! {

/// Containers whose items stand in a sequence, from front to back.
pub trait Sequence: Collection {
    spec fn items(&self) -> Seq<Self::Item>;
}

/// Peek at the front item: the first of a sequence, the greatest of a priority queue.
pub trait Front: Collection {
    /// Whether `item` is what `front` may report (`None` for an empty container).
    spec fn spec_front(&self, item: Option<Self::Item>) -> bool;

    fn front(&self) -> (r: Option<&Self::Item>)
        ensures
            match r {
                Some(v) => self.spec_front(Some(*v)),
                None => self.spec_front(None),
            },
    ;
}

/// Peek at the back item.
pub trait Back: Sequence {
    fn back(&self) -> (r: Option<&Self::Item>)
        ensures
            match r {
                Some(v) => self.items().len() > 0 && *v == self.items().last(),
                None => self.items().len() == 0,
            },
    ;
}

/// Mutable access to the front item.
pub trait FrontMut: Sequence {
    fn front_mut(&mut self) -> (r: Option<&mut Self::Item>)
        ensures
            match r {
                Some(v) => {
                    &&& old(self).items().len() > 0
                    &&& *v == old(self).items()[0]
                    &&& final(self).items() == old(self).items().update(0, *final(v))
                },
                None => {
                    &&& old(self).items().len() == 0
                    &&& final(self).items() == old(self).items()
                },
            },
    ;
}

/// Mutable access to the back item.
pub trait BackMut: Sequence {
    fn back_mut(&mut self) -> (r: Option<&mut Self::Item>)
        ensures
            match r {
                Some(v) => {
                    &&& old(self).items().len() > 0
                    &&& *v == old(self).items().last()
                    &&& final(self).items() == old(self).items().update(
                        old(self).items().len() - 1,
                        *final(v),
                    )
                },
                None => {
                    &&& old(self).items().len() == 0
                    &&& final(self).items() == old(self).items()
                },
            },
    ;
}

/// Insertion at the front.
pub trait PushFront: Sequence {
    type Output;

    fn push_front(&mut self, item: Self::Item) -> (r: Self::Output)
        ensures
            final(self).items() == seq![item] + old(self).items(),
    ;
}

/// Insertion at the back: appended to a sequence, added to a priority queue.
pub trait PushBack: Collection {
    type Output;

    /// The model after pushing `item`.
    spec fn spec_push_back(&self, item: Self::Item) -> Self::Model;

    fn push_back(&mut self, item: Self::Item) -> (r: Self::Output)
        ensures
            final(self).model() == old(self).spec_push_back(item),
    ;
}

/// Removal at the front (the first of a sequence, the greatest of a priority queue); an
/// empty container gives `None` and stays as it is.
pub trait PopFront: Collection {
    /// Whether `after` and `out` are a model and a result that popping the front may give.
    spec fn spec_pop_front(&self, after: Self::Model, out: Option<Self::Item>) -> bool;

    fn pop_front(&mut self) -> (r: Option<Self::Item>)
        ensures
            old(self).spec_pop_front(final(self).model(), r),
    ;
}

/// Removal at the back; an empty container gives `None`.
pub trait PopBack: Sequence {
    fn pop_back(&mut self) -> (r: Option<Self::Item>)
        ensures
            match r {
                Some(v) => {
                    &&& old(self).items().len() > 0
                    &&& v == old(self).items().last()
                    &&& final(self).items() == old(self).items().drop_last()
                },
                None => {
                    &&& old(self).items().len() == 0
                    &&& final(self).items() == old(self).items()
                },
            },
    ;
}

/// Traversal of the items, in the container's own order: front to back for a sequence,
/// each item once for a set. Each call starts afresh.
pub trait Iter: Collection {
    /// Whether `items` is what a traversal of the container hands out.
    spec fn spec_traversal(&self, items: Seq<Self::Item>) -> bool;

    fn iter(&self) -> (r: Vec<&Self::Item>)
        ensures
            Self::obeys_model() ==> self.spec_traversal(r@.unref()),
    ;
}

} // verus!
