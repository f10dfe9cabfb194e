use cc_traits::{
    Capacity, Clear, Front, Len, PopFront, PriorityQueue, PushBack, Reserve, WithCapacity,
};

#[test]
fn queue_pops_greatest_first() {
    let mut q = PriorityQueue::new();
    assert_eq!(Front::front(&q), None);
    assert_eq!(PopFront::pop_front(&mut q), None);
    PushBack::push_back(&mut q, 3);
    PushBack::push_back(&mut q, 9);
    PushBack::push_back(&mut q, 1);
    PushBack::push_back(&mut q, 9);
    assert_eq!(Len::len(&q), 4);
    assert_eq!(Front::front(&q), Some(&9));
    assert_eq!(PopFront::pop_front(&mut q), Some(9));
    assert_eq!(PopFront::pop_front(&mut q), Some(9));
    assert_eq!(PopFront::pop_front(&mut q), Some(3));
    assert_eq!(Front::front(&q), Some(&1));
    assert_eq!(PopFront::pop_front(&mut q), Some(1));
    assert!(Len::is_empty(&q));
}

#[test]
fn queue_capacity_and_clear() {
    let mut q: PriorityQueue = WithCapacity::with_capacity(5);
    assert!(Capacity::capacity(&q) >= 5);
    PushBack::push_back(&mut q, 2);
    Reserve::reserve(&mut q, 10);
    assert!(Capacity::capacity(&q) >= Len::len(&q) + 10);
    Clear::clear(&mut q);
    assert_eq!(Len::len(&q), 0);
    assert_eq!(Front::front(&q), None);
}
