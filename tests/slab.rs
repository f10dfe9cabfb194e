use cc_traits::{
    Capacity, Clear, Get, GetMut, Insert, Len, Remove, Reserve, SlabMap, WithCapacity,
};

#[test]
fn slab_insert_get_remove() {
    let mut s: SlabMap<&str> = SlabMap::new();
    let a = Insert::insert(&mut s, "a");
    let b = Insert::insert(&mut s, "b");
    assert_ne!(a, b);
    assert_eq!(Len::len(&s), 2);
    assert_eq!(Get::get(&s, a), Some(&"a"));
    assert_eq!(Get::get(&s, b), Some(&"b"));
    assert_eq!(Remove::remove(&mut s, a), Some("a"));
    assert_eq!(Get::get(&s, a), None);
    assert_eq!(Len::len(&s), 1);
    assert!(!s.contains(a));
    assert!(s.contains(b));
}

#[test]
fn slab_remove_absent_key_is_none() {
    let mut s: SlabMap<i32> = SlabMap::new();
    assert_eq!(Remove::remove(&mut s, 0), None);
    let k = Insert::insert(&mut s, 5);
    assert_eq!(Remove::remove(&mut s, k + 100), None);
    assert_eq!(Len::len(&s), 1);
    assert_eq!(Remove::remove(&mut s, k), Some(5));
    assert_eq!(Remove::remove(&mut s, k), None);
    assert!(Len::is_empty(&s));
}

#[test]
fn slab_get_mut_and_clear() {
    let mut s: SlabMap<i32> = WithCapacity::with_capacity(4);
    assert!(Capacity::capacity(&s) >= 4);
    let k = Insert::insert(&mut s, 1);
    if let Some(v) = GetMut::get_mut(&mut s, k) {
        *v = 9;
    }
    assert_eq!(Get::get(&s, k), Some(&9));
    assert!(GetMut::get_mut(&mut s, k + 1).is_none());
    Reserve::reserve(&mut s, 10);
    assert!(Capacity::capacity(&s) >= Len::len(&s) + 10);
    Clear::clear(&mut s);
    assert_eq!(Len::len(&s), 0);
    assert_eq!(Get::get(&s, k), None);
}

#[test]
fn slab_capacity_follows_reservations() {
    let s: SlabMap<u8> = WithCapacity::with_capacity(7);
    assert!(Capacity::capacity(&s) >= 7);
    let mut t: SlabMap<u8> = SlabMap::new();
    Insert::insert(&mut t, 1);
    Insert::insert(&mut t, 2);
    Reserve::reserve(&mut t, 30);
    assert!(Capacity::capacity(&t) >= 32);
}

#[test]
fn slab_reuses_released_keys() {
    let mut s: SlabMap<i32> = SlabMap::new();
    let a = Insert::insert(&mut s, 1);
    Remove::remove(&mut s, a);
    let b = Insert::insert(&mut s, 2);
    assert_eq!(Get::get(&s, b), Some(&2));
    assert_eq!(Len::len(&s), 1);
}
