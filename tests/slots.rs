use cc_traits::{
    Capacity, Clear, DenseSlots, Get, GetMut, HopSlots, Insert, Len, Remove, Reserve, Slots,
    WithCapacity,
};

#[test]
fn slot_map_insert_get_remove() {
    let mut s: Slots<&str> = Slots::new();
    let a = Insert::insert(&mut s, "a");
    let b = Insert::insert(&mut s, "b");
    assert_ne!(a, b);
    assert_eq!(Len::len(&s), 2);
    assert_eq!(Get::get(&s, a), Some(&"a"));
    assert_eq!(Remove::remove(&mut s, a), Some("a"));
    assert_eq!(Get::get(&s, a), None);
    assert_eq!(Remove::remove(&mut s, a), None);
    assert_eq!(Len::len(&s), 1);
    assert!(s.contains(b));
    assert!(!s.contains(a));
}

#[test]
fn slot_map_removed_key_stays_dead() {
    let mut s: Slots<i32> = Slots::new();
    let a = Insert::insert(&mut s, 1);
    Remove::remove(&mut s, a);
    let b = Insert::insert(&mut s, 2);
    assert_ne!(a, b);
    assert_eq!(Get::get(&s, a), None);
    assert_eq!(Get::get(&s, b), Some(&2));
}

#[test]
fn slot_map_get_mut_capacity_clear() {
    let mut s: Slots<i32> = WithCapacity::with_capacity(3);
    assert!(Capacity::capacity(&s) >= 3);
    let k = Insert::insert(&mut s, 4);
    if let Some(v) = GetMut::get_mut(&mut s, k) {
        *v = 40;
    }
    assert_eq!(Get::get(&s, k), Some(&40));
    Reserve::reserve(&mut s, 20);
    assert!(Capacity::capacity(&s) >= Len::len(&s) + 20);
    Clear::clear(&mut s);
    assert!(Len::is_empty(&s));
    assert_eq!(Get::get(&s, k), None);
    assert!(GetMut::get_mut(&mut s, k).is_none());
}

#[test]
fn dense_slot_map_insert_get_remove() {
    let mut s: DenseSlots<i32> = DenseSlots::new();
    let a = Insert::insert(&mut s, 1);
    let b = Insert::insert(&mut s, 2);
    assert_eq!(Get::get(&s, a), Some(&1));
    if let Some(v) = GetMut::get_mut(&mut s, b) {
        *v = 20;
    }
    assert_eq!(Remove::remove(&mut s, a), Some(1));
    assert_eq!(Remove::remove(&mut s, a), None);
    assert_eq!(Get::get(&s, b), Some(&20));
    assert_eq!(Len::len(&s), 1);
    Reserve::reserve(&mut s, 5);
    assert!(Capacity::capacity(&s) >= Len::len(&s) + 5);
    Clear::clear(&mut s);
    assert!(Len::is_empty(&s));
    let t: DenseSlots<i32> = WithCapacity::with_capacity(2);
    assert!(Capacity::capacity(&t) >= 2);
}

#[test]
fn hop_slot_map_insert_get_remove() {
    let mut s: HopSlots<i32> = HopSlots::new();
    let a = Insert::insert(&mut s, 1);
    let b = Insert::insert(&mut s, 2);
    assert!(s.contains(a));
    assert_eq!(Remove::remove(&mut s, a), Some(1));
    assert!(!s.contains(a));
    assert_eq!(Get::get(&s, a), None);
    assert_eq!(Get::get(&s, b), Some(&2));
    assert!(GetMut::get_mut(&mut s, a).is_none());
    Clear::clear(&mut s);
    assert_eq!(Len::len(&s), 0);
}
