use cc_traits::{
    Capacity, Clear, Get, GetMut, Insert, Len, MapInsert, Remove, Reserve, Secondary, Slots,
    SparseSecondary, WithCapacity,
};

#[test]
fn secondary_insert_get_remove() {
    let mut primary: Slots<()> = Slots::new();
    let k = Insert::insert(&mut primary, ());
    let mut sec: Secondary<i32> = Secondary::new();
    assert_eq!(MapInsert::insert(&mut sec, k, 0), None);
    assert_eq!(MapInsert::insert(&mut sec, k, 4), Some(0));
    assert_eq!(Get::get(&sec, k), Some(&4));
    if let Some(v) = GetMut::get_mut(&mut sec, k) {
        *v = 16;
    }
    assert_eq!(Get::get(&sec, k), Some(&16));
    assert_eq!(Len::len(&sec), 1);
    assert_eq!(Remove::remove(&mut sec, k), Some(16));
    assert_eq!(Get::get(&sec, k), None);
    assert_eq!(Remove::remove(&mut sec, k), None);
    assert!(Len::is_empty(&sec));
}

#[test]
fn secondary_newer_key_replaces_older_one() {
    let mut primary: Slots<()> = Slots::new();
    let old_key = Insert::insert(&mut primary, ());
    let mut sec: Secondary<i32> = WithCapacity::with_capacity(4);
    assert!(Len::is_empty(&sec));
    MapInsert::insert(&mut sec, old_key, 1);
    Remove::remove(&mut primary, old_key);
    let new_key = Insert::insert(&mut primary, ());
    assert_eq!(MapInsert::insert(&mut sec, new_key, 2), None);
    assert_eq!(Get::get(&sec, new_key), Some(&2));
    assert_eq!(Get::get(&sec, old_key), None);
    assert_eq!(MapInsert::insert(&mut sec, old_key, 3), None);
    assert_eq!(Get::get(&sec, old_key), None);
    Clear::clear(&mut sec);
    assert_eq!(Len::len(&sec), 0);
}

#[test]
fn sparse_secondary_insert_get_remove() {
    let mut primary: Slots<()> = Slots::new();
    let a = Insert::insert(&mut primary, ());
    let b = Insert::insert(&mut primary, ());
    let mut sec: SparseSecondary<&str> = SparseSecondary::new();
    assert_eq!(MapInsert::insert(&mut sec, a, "a"), None);
    assert_eq!(MapInsert::insert(&mut sec, b, "b"), None);
    assert_eq!(MapInsert::insert(&mut sec, a, "A"), Some("a"));
    assert_eq!(Get::get(&sec, a), Some(&"A"));
    assert_eq!(Remove::remove(&mut sec, b), Some("b"));
    assert_eq!(Get::get(&sec, b), None);
    Reserve::reserve(&mut sec, 8);
    assert!(Capacity::capacity(&sec) >= Len::len(&sec) + 8);
    Clear::clear(&mut sec);
    assert!(Len::is_empty(&sec));
}
