use std::collections::{BTreeMap, BTreeSet, HashMap, HashSet};

use cc_traits::{
    Capacity, Clear, Get, GetKeyValue, GetMut, Insert, Iter, Len, MapInsert, MapIter, Remove,
    Reserve, WithCapacity,
};

#[test]
fn hash_map_end_to_end() {
    let mut m: HashMap<&str, i32> = HashMap::new();
    assert_eq!(MapInsert::insert(&mut m, "a", 1), None);
    assert_eq!(MapInsert::insert(&mut m, "a", 2), Some(1));
    assert_eq!(Get::get(&m, &"a"), Some(&2));
    assert_eq!(Remove::remove(&mut m, &"a"), Some(2));
    assert_eq!(Get::get(&m, &"a"), None);
}

#[test]
fn btree_map_end_to_end() {
    let mut m: BTreeMap<&str, i32> = BTreeMap::new();
    assert_eq!(MapInsert::insert(&mut m, "a", 1), None);
    assert_eq!(MapInsert::insert(&mut m, "a", 2), Some(1));
    assert_eq!(Get::get(&m, &"a"), Some(&2));
    assert_eq!(Remove::remove(&mut m, &"a"), Some(2));
    assert_eq!(Get::get(&m, &"a"), None);
}

#[test]
fn hash_map_insert_then_get_holds_until_key_changes() {
    let mut m: HashMap<u32, u32> = HashMap::new();
    MapInsert::insert(&mut m, 7, 70);
    assert_eq!(Get::get(&m, &7), Some(&70));
    assert_eq!(Get::get(&m, &7), Some(&70));
    MapInsert::insert(&mut m, 8, 80);
    assert_eq!(Get::get(&m, &7), Some(&70));
    MapInsert::insert(&mut m, 7, 71);
    assert_eq!(Get::get(&m, &7), Some(&71));
}

#[test]
fn hash_map_remove_then_absent() {
    let mut m: HashMap<u32, u32> = HashMap::new();
    MapInsert::insert(&mut m, 1, 10);
    MapInsert::insert(&mut m, 2, 20);
    assert_eq!(Len::len(&m), 2);
    assert_eq!(Remove::remove(&mut m, &1), Some(10));
    assert_eq!(Get::get(&m, &1), None);
    assert_eq!(Len::len(&m), 1);
    assert_eq!(Remove::remove(&mut m, &1), None);
    assert_eq!(Len::len(&m), 1);
}

#[test]
fn btree_map_remove_then_absent() {
    let mut m: BTreeMap<u32, u32> = BTreeMap::new();
    MapInsert::insert(&mut m, 1, 10);
    MapInsert::insert(&mut m, 2, 20);
    assert_eq!(Remove::remove(&mut m, &2), Some(20));
    assert_eq!(Get::get(&m, &2), None);
    assert_eq!(Len::len(&m), 1);
    assert_eq!(Remove::remove(&mut m, &9), None);
    assert_eq!(Len::len(&m), 1);
}

#[test]
fn hash_map_clear_empties() {
    let mut m: HashMap<u32, u32> = HashMap::new();
    MapInsert::insert(&mut m, 1, 10);
    MapInsert::insert(&mut m, 2, 20);
    Clear::clear(&mut m);
    assert_eq!(Len::len(&m), 0);
    assert!(Len::is_empty(&m));
    assert_eq!(Get::get(&m, &1), None);
    assert_eq!(Get::get(&m, &2), None);
}

#[test]
fn btree_map_clear_empties() {
    let mut m: BTreeMap<u32, u32> = BTreeMap::new();
    MapInsert::insert(&mut m, 1, 10);
    Clear::clear(&mut m);
    assert!(Len::is_empty(&m));
    assert_eq!(Get::get(&m, &1), None);
}

#[test]
fn hash_map_get_mut_writes_through() {
    let mut m: HashMap<u32, u32> = HashMap::new();
    MapInsert::insert(&mut m, 1, 10);
    if let Some(v) = GetMut::get_mut(&mut m, &1) {
        *v = 11;
    }
    assert_eq!(Get::get(&m, &1), Some(&11));
    assert!(GetMut::get_mut(&mut m, &2).is_none());
}

#[test]
fn btree_map_get_mut_writes_through() {
    let mut m: BTreeMap<u32, u32> = BTreeMap::new();
    MapInsert::insert(&mut m, 1, 10);
    if let Some(v) = GetMut::get_mut(&mut m, &1) {
        *v = 12;
    }
    assert_eq!(Get::get(&m, &1), Some(&12));
    assert!(GetMut::get_mut(&mut m, &2).is_none());
}

#[test]
fn get_key_value_returns_stored_pair() {
    let mut m: HashMap<u32, &str> = HashMap::new();
    MapInsert::insert(&mut m, 3, "three");
    assert_eq!(GetKeyValue::get_key_value(&m, &3), Some((&3, &"three")));
    assert_eq!(GetKeyValue::get_key_value(&m, &4), None);
    let mut b: BTreeMap<u32, &str> = BTreeMap::new();
    MapInsert::insert(&mut b, 5, "five");
    assert_eq!(GetKeyValue::get_key_value(&b, &5), Some((&5, &"five")));
    assert_eq!(GetKeyValue::get_key_value(&b, &6), None);
}

#[test]
fn hash_map_capacity_after_reserve() {
    let mut m: HashMap<u32, u32> = WithCapacity::with_capacity(4);
    assert!(Capacity::capacity(&m) >= 4);
    MapInsert::insert(&mut m, 1, 1);
    Reserve::reserve(&mut m, 64);
    assert!(Capacity::capacity(&m) >= Len::len(&m) + 64);
    assert_eq!(Get::get(&m, &1), Some(&1));
}

#[test]
fn hash_set_insert_get_remove() {
    let mut s: HashSet<u32> = WithCapacity::with_capacity(2);
    assert!(Insert::insert(&mut s, 4));
    assert!(!Insert::insert(&mut s, 4));
    assert_eq!(Len::len(&s), 1);
    assert_eq!(Get::get(&s, &4), Some(&4));
    assert_eq!(Get::get(&s, &5), None);
    assert_eq!(Remove::remove(&mut s, &4), Some(4));
    assert_eq!(Remove::remove(&mut s, &4), None);
    assert!(Len::is_empty(&s));
}

#[test]
fn hash_set_clear_and_capacity() {
    let mut s: HashSet<u32> = HashSet::new();
    Insert::insert(&mut s, 1);
    Insert::insert(&mut s, 2);
    Reserve::reserve(&mut s, 10);
    assert!(Capacity::capacity(&s) >= Len::len(&s) + 10);
    Clear::clear(&mut s);
    assert_eq!(Len::len(&s), 0);
    assert_eq!(Get::get(&s, &1), None);
}

#[test]
fn btree_set_insert_get_remove() {
    let mut s: BTreeSet<u32> = BTreeSet::new();
    assert!(Insert::insert(&mut s, 9));
    assert!(!Insert::insert(&mut s, 9));
    assert_eq!(Get::get(&s, &9), Some(&9));
    assert_eq!(Remove::remove(&mut s, &9), Some(9));
    assert_eq!(Get::get(&s, &9), None);
    assert_eq!(Remove::remove(&mut s, &9), None);
    Insert::insert(&mut s, 1);
    Clear::clear(&mut s);
    assert!(Len::is_empty(&s));
}

#[test]
fn borrowed_str_lookup_matches_owned_key() {
    let mut m: HashMap<String, i32> = HashMap::new();
    MapInsert::insert(&mut m, String::from("abc"), 5);
    MapInsert::insert(&mut m, String::from("abd"), 6);
    let owned = String::from("abc");
    assert_eq!(Get::get(&m, "abc"), Get::get(&m, &owned));
    assert_eq!(Get::get(&m, "abc"), Some(&5));
    assert_eq!(Get::get(&m, "abd"), Some(&6));
    let missing = String::from("abe");
    assert_eq!(Get::get(&m, "abe"), Get::get(&m, &missing));
    assert_eq!(Get::get(&m, "abe"), None);
}

#[test]
fn btree_map_iter_in_key_order() {
    let mut m: BTreeMap<u32, &str> = BTreeMap::new();
    MapInsert::insert(&mut m, 3, "c");
    MapInsert::insert(&mut m, 1, "a");
    MapInsert::insert(&mut m, 2, "b");
    let pairs: Vec<(u32, &str)> = MapIter::iter(&m).into_iter().map(|(k, v)| (*k, *v)).collect();
    assert_eq!(pairs, vec![(1, "a"), (2, "b"), (3, "c")]);
}

#[test]
fn hash_map_iter_each_pair_once() {
    let mut m: HashMap<u32, u32> = HashMap::new();
    MapInsert::insert(&mut m, 1, 10);
    MapInsert::insert(&mut m, 2, 20);
    MapInsert::insert(&mut m, 3, 30);
    let mut pairs: Vec<(u32, u32)> = MapIter::iter(&m).into_iter().map(|(k, v)| (*k, *v)).collect();
    pairs.sort();
    assert_eq!(pairs, vec![(1, 10), (2, 20), (3, 30)]);
    let empty: HashMap<u32, u32> = HashMap::new();
    assert!(MapIter::iter(&empty).is_empty());
}

#[test]
fn set_iter_each_item_once() {
    let mut s: HashSet<u32> = HashSet::new();
    Insert::insert(&mut s, 5);
    Insert::insert(&mut s, 6);
    Insert::insert(&mut s, 5);
    let mut items: Vec<u32> = Iter::iter(&s).into_iter().copied().collect();
    items.sort();
    assert_eq!(items, vec![5, 6]);
    let mut b: BTreeSet<u32> = BTreeSet::new();
    Insert::insert(&mut b, 9);
    Insert::insert(&mut b, 7);
    let items: Vec<u32> = Iter::iter(&b).into_iter().copied().collect();
    assert_eq!(items, vec![7, 9]);
}

#[test]
fn set_len_tracks_insert_and_remove() {
    let mut s: HashSet<u32> = HashSet::new();
    Insert::insert(&mut s, 1);
    assert_eq!(Len::len(&s), 1);
    Insert::insert(&mut s, 1);
    assert_eq!(Len::len(&s), 1);
    Insert::insert(&mut s, 2);
    assert_eq!(Len::len(&s), 2);
    Remove::remove(&mut s, &1);
    assert_eq!(Len::len(&s), 1);
}

#[test]
fn str_queries_on_string_keyed_hash_map() {
    let mut m: HashMap<String, i32> = HashMap::new();
    MapInsert::insert(&mut m, String::from("x"), 1);
    MapInsert::insert(&mut m, String::from("y"), 2);
    if let Some(v) = GetMut::get_mut(&mut m, "x") {
        *v = 10;
    }
    assert_eq!(Get::get(&m, "x"), Some(&10));
    assert!(GetMut::get_mut(&mut m, "z").is_none());
    assert_eq!(GetKeyValue::get_key_value(&m, "y"), Some((&String::from("y"), &2)));
    assert_eq!(GetKeyValue::get_key_value(&m, "z"), None);
    assert_eq!(Remove::remove(&mut m, "x"), Some(10));
    assert_eq!(Get::get(&m, "x"), None);
    assert_eq!(Remove::remove(&mut m, "x"), None);
    assert_eq!(Len::len(&m), 1);
}

#[test]
fn str_queries_on_string_keyed_btree_map() {
    let mut m: BTreeMap<String, i32> = BTreeMap::new();
    MapInsert::insert(&mut m, String::from("abc"), 5);
    let owned = String::from("abc");
    assert_eq!(Get::get(&m, "abc"), Get::get(&m, &owned));
    assert_eq!(Get::get(&m, "abc"), Some(&5));
    if let Some(v) = GetMut::get_mut(&mut m, "abc") {
        *v = 6;
    }
    assert_eq!(GetKeyValue::get_key_value(&m, "abc"), Some((&owned, &6)));
    assert_eq!(Get::get(&m, "abd"), None);
    assert_eq!(Remove::remove(&mut m, "abc"), Some(6));
    assert!(Len::is_empty(&m));
}

#[test]
fn map_value_iteration_follows_pair_order() {
    let mut b: BTreeMap<u32, &str> = BTreeMap::new();
    MapInsert::insert(&mut b, 2, "two");
    MapInsert::insert(&mut b, 1, "one");
    let values: Vec<&str> = Iter::iter(&b).into_iter().copied().collect();
    assert_eq!(values, vec!["one", "two"]);
    let mut h: HashMap<u32, u32> = HashMap::new();
    MapInsert::insert(&mut h, 1, 10);
    MapInsert::insert(&mut h, 2, 20);
    let pairs: Vec<u32> = MapIter::iter(&h).into_iter().map(|(_, v)| *v).collect();
    let values: Vec<u32> = Iter::iter(&h).into_iter().copied().collect();
    assert_eq!(values, pairs);
    assert_eq!(MapIter::iter(&h), MapIter::iter(&h));
}
