use std::collections::VecDeque;

use cc_traits::{
    Back, BackMut, Capacity, Clear, Front, FrontMut, Get, GetMut, Iter, Len, PopBack, PopFront,
    PushBack, PushFront, Remove, Reserve, WithCapacity,
};

fn values<T: Copy>(refs: Vec<&T>) -> Vec<T> {
    refs.into_iter().copied().collect()
}

#[test]
fn deque_end_to_end() {
    let mut d: VecDeque<i32> = VecDeque::new();
    PushBack::push_back(&mut d, 1);
    PushBack::push_back(&mut d, 2);
    PushFront::push_front(&mut d, 0);
    assert_eq!(values(Iter::iter(&d)), vec![0, 1, 2]);
    assert_eq!(PopFront::pop_front(&mut d), Some(0));
    assert_eq!(values(Iter::iter(&d)), vec![1, 2]);
    assert_eq!(Get::get(&d, 5usize), None);
}

#[test]
fn vec_get_in_and_out_of_range() {
    let v: Vec<i32> = vec![10, 20, 30];
    assert_eq!(Get::get(&v, 0usize), Some(&10));
    assert_eq!(Get::get(&v, 2usize), Some(&30));
    assert_eq!(Get::get(&v, 3usize), None);
    assert_eq!(Get::get(&v, usize::MAX), None);
}

#[test]
fn vec_get_mut_writes_through() {
    let mut v: Vec<i32> = vec![1, 2, 3];
    if let Some(x) = GetMut::get_mut(&mut v, 1usize) {
        *x = 20;
    }
    assert_eq!(v, vec![1, 20, 3]);
    assert!(GetMut::get_mut(&mut v, 3usize).is_none());
}

#[test]
fn vec_remove_shifts_and_rejects_out_of_range() {
    let mut v: Vec<i32> = vec![1, 2, 3];
    assert_eq!(Remove::remove(&mut v, 1usize), Some(2));
    assert_eq!(v, vec![1, 3]);
    assert_eq!(Remove::remove(&mut v, 2usize), None);
    assert_eq!(v, vec![1, 3]);
    assert_eq!(Len::len(&v), 2);
}

#[test]
fn vec_push_pop_back() {
    let mut v: Vec<i32> = Vec::new();
    assert_eq!(PopBack::pop_back(&mut v), None);
    PushBack::push_back(&mut v, 4);
    PushBack::push_back(&mut v, 5);
    assert_eq!(PopBack::pop_back(&mut v), Some(5));
    assert_eq!(values(Iter::iter(&v)), vec![4]);
}

#[test]
fn vec_len_and_is_empty() {
    let mut v: Vec<i32> = Vec::new();
    assert_eq!(Len::len(&v), 0);
    assert!(Len::is_empty(&v));
    v.push(3);
    assert_eq!(Len::len(&v), 1);
    assert!(!Len::is_empty(&v));
}

#[test]
fn vec_clear_empties() {
    let mut v: Vec<i32> = vec![1, 2, 3];
    Clear::clear(&mut v);
    assert_eq!(Len::len(&v), 0);
    assert!(Len::is_empty(&v));
    assert_eq!(Get::get(&v, 0usize), None);
}

#[test]
fn vec_reserve_grows_capacity() {
    let mut v: Vec<i32> = vec![1, 2, 3];
    Reserve::reserve(&mut v, 100);
    assert!(Capacity::capacity(&v) >= Len::len(&v) + 100);
    assert_eq!(v, vec![1, 2, 3]);
}

#[test]
fn vec_with_capacity_is_empty() {
    let v: Vec<i32> = WithCapacity::with_capacity(16);
    assert!(Len::is_empty(&v));
    assert!(Capacity::capacity(&v) >= 16);
}

#[test]
fn deque_reserve_grows_capacity() {
    let mut d: VecDeque<i32> = VecDeque::from(vec![1, 2]);
    Reserve::reserve(&mut d, 50);
    assert!(Capacity::capacity(&d) >= Len::len(&d) + 50);
    let d2: VecDeque<i32> = WithCapacity::with_capacity(8);
    assert!(Capacity::capacity(&d2) >= 8);
    assert_eq!(Len::len(&d2), 0);
}

#[test]
fn deque_front_back_peek() {
    let mut d: VecDeque<i32> = VecDeque::new();
    assert_eq!(Front::front(&d), None);
    assert_eq!(Back::back(&d), None);
    d.push_back(7);
    d.push_back(8);
    d.push_back(9);
    assert_eq!(Front::front(&d), Some(&7));
    assert_eq!(Back::back(&d), Some(&9));
}

#[test]
fn deque_front_back_mut_write_through() {
    let mut d: VecDeque<i32> = VecDeque::from(vec![1, 2, 3]);
    if let Some(x) = FrontMut::front_mut(&mut d) {
        *x = 10;
    }
    if let Some(x) = BackMut::back_mut(&mut d) {
        *x = 30;
    }
    assert_eq!(values(Iter::iter(&d)), vec![10, 2, 30]);
    let mut e: VecDeque<i32> = VecDeque::new();
    assert!(FrontMut::front_mut(&mut e).is_none());
    assert!(BackMut::back_mut(&mut e).is_none());
}

#[test]
fn deque_get_mut_by_index() {
    let mut d: VecDeque<i32> = VecDeque::from(vec![1, 2, 3]);
    if let Some(x) = GetMut::get_mut(&mut d, 1usize) {
        *x = 5;
    }
    assert_eq!(Get::get(&d, 1usize), Some(&5));
    assert!(GetMut::get_mut(&mut d, 3usize).is_none());
}

#[test]
fn deque_pop_both_ends_and_remove() {
    let mut d: VecDeque<i32> = VecDeque::from(vec![1, 2, 3, 4]);
    assert_eq!(PopBack::pop_back(&mut d), Some(4));
    assert_eq!(PopFront::pop_front(&mut d), Some(1));
    assert_eq!(Remove::remove(&mut d, 5usize), None);
    assert_eq!(Remove::remove(&mut d, 0usize), Some(2));
    assert_eq!(values(Iter::iter(&d)), vec![3]);
    Clear::clear(&mut d);
    assert_eq!(PopFront::pop_front(&mut d), None);
    assert_eq!(PopBack::pop_back(&mut d), None);
    assert!(Len::is_empty(&d));
}

#[test]
fn iteration_restarts_each_call() {
    let d: VecDeque<i32> = VecDeque::from(vec![4, 5]);
    assert_eq!(values(Iter::iter(&d)), values(Iter::iter(&d)));
    let v: Vec<i32> = Vec::new();
    assert!(Iter::iter(&v).is_empty());
}
