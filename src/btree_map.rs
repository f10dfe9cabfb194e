use vstd::prelude::*;

use std::collections::BTreeMap;
use vstd::std_specs::btree::{increasing_seq, key_obeys_cmp_spec, spec_btree_map_iter};
use vstd::std_specs::cmp::OrdSpec;
use vstd::std_specs::iter::IteratorSpec;

use crate::capabilities::{
    has_key_with_chars, key_with_chars,
    Clear, Collection, Get, GetKeyValue, GetMut, Keyed, Len, Lookup, MapInsert, MapIter,
    Remove,
};
use crate::positional::Iter;
use crate::traverse::advance;

verus! {

/// Relies on `BTreeMap::get_mut`: a mutable reference to the value stored under `key`,
/// or `None` when the key is absent. Writing through it changes that value only.
#[verifier::external_body]
fn btree_map_get_mut<'a, K: Ord, V>(m: &'a mut BTreeMap<K, V>, key: &K) -> (r: Option<
    &'a mut V,
>)
    ensures
        key_obeys_cmp_spec::<K>() ==> match r {
            Some(v) => {
                &&& old(m)@.contains_key(*key)
                &&& *v == old(m)@[*key]
                &&& final(m)@ == old(m)@.insert(*key, *final(v))
            },
            None => {
                &&& !old(m)@.contains_key(*key)
                &&& final(m)@ == old(m)@
            },
        },
{
    m.get_mut(key)
}

/// Relies on `BTreeMap::get_key_value`: the stored key equal to `key` with its value,
/// or `None` when the key is absent.
#[verifier::external_body]
fn btree_map_get_key_value<'a, K: Ord, V>(m: &'a BTreeMap<K, V>, key: &K) -> (r: Option<
    (&'a K, &'a V),
>)
    ensures
        key_obeys_cmp_spec::<K>() ==> match r {
            Some(kv) => {
                &&& m@.contains_key(*key)
                &&& *kv.0 == *key
                &&& *kv.1 == m@[*key]
            },
            None => !m@.contains_key(*key),
        },
{
    m.get_key_value(key)
}

/// Relies on `BTreeMap::get` with a `&str` query on `String` keys: `String` borrows as
/// `str` with the same `Ord`, so the query finds the key with the same characters.
#[verifier::external_body]
fn btree_map_get_str<'a, V>(m: &'a BTreeMap<String, V>, key: &str) -> (r: Option<&'a V>)
    ensures
        key_obeys_cmp_spec::<String>() ==> match r {
            Some(v) => {
                &&& has_key_with_chars(m@, key@)
                &&& *v == m@[key_with_chars(m@, key@)]
            },
            None => !has_key_with_chars(m@, key@),
        },
{
    m.get(key)
}

/// Relies on `BTreeMap::get_mut` with a `&str` query: the value under the key with the
/// same characters; writing through it changes that value only.
#[verifier::external_body]
fn btree_map_get_mut_str<'a, V>(m: &'a mut BTreeMap<String, V>, key: &str) -> (r: Option<&'a mut V>)
    ensures
        key_obeys_cmp_spec::<String>() ==> match r {
            Some(v) => {
                &&& has_key_with_chars(old(m)@, key@)
                &&& *v == old(m)@[key_with_chars(old(m)@, key@)]
                &&& final(m)@ == old(m)@.insert(key_with_chars(old(m)@, key@), *final(v))
            },
            None => {
                &&& !has_key_with_chars(old(m)@, key@)
                &&& final(m)@ == old(m)@
            },
        },
{
    m.get_mut(key)
}

/// Relies on `BTreeMap::get_key_value` with a `&str` query: the stored key with the same
/// characters, and its value.
#[verifier::external_body]
fn btree_map_get_key_value_str<'a, V>(m: &'a BTreeMap<String, V>, key: &str) -> (r: Option<
    (&'a String, &'a V),
>)
    ensures
        key_obeys_cmp_spec::<String>() ==> match r {
            Some(kv) => {
                &&& has_key_with_chars(m@, key@)
                &&& *kv.0 == key_with_chars(m@, key@)
                &&& *kv.1 == m@[key_with_chars(m@, key@)]
            },
            None => !has_key_with_chars(m@, key@),
        },
{
    m.get_key_value(key)
}

/// Relies on `BTreeMap::remove` with a `&str` query: the value under the key with the
/// same characters is returned and that key removed.
#[verifier::external_body]
fn btree_map_remove_str<V>(m: &mut BTreeMap<String, V>, key: &str) -> (r: Option<V>)
    ensures
        key_obeys_cmp_spec::<String>() ==> match r {
            Some(v) => {
                &&& has_key_with_chars(old(m)@, key@)
                &&& v == old(m)@[key_with_chars(old(m)@, key@)]
                &&& final(m)@ == old(m)@.remove(key_with_chars(old(m)@, key@))
            },
            None => {
                &&& !has_key_with_chars(old(m)@, key@)
                &&& final(m)@ == old(m)@
            },
        },
{
    m.remove(key)
}

impl<K, V> Collection for BTreeMap<K, V> {
    type Item = V;

    type Model = Map<K, V>;

    open spec fn model(&self) -> Map<K, V> {
        self@
    }

    open spec fn obeys_model() -> bool {
        key_obeys_cmp_spec::<K>()
    }

    open spec fn spec_len(&self) -> nat {
        self@.len()
    }

    open spec fn empty_model() -> Self::Model {
        Map::empty()
    }

    /// Allocator state, not followed by the model.
    open spec fn spec_capacity(&self) -> Option<nat> {
        None
    }
}

impl<K, V> Keyed for BTreeMap<K, V> {
    type Key = K;
}

impl<K, V> Len for BTreeMap<K, V> {
    fn len(&self) -> (r: usize) {
        BTreeMap::len(self)
    }
}

impl<K, V> Clear for BTreeMap<K, V> {
    fn clear(&mut self) {
        BTreeMap::clear(self)
    }
}

impl<'a, K, V> Lookup<&'a K> for BTreeMap<K, V> {
    open spec fn spec_get(&self, key: &'a K) -> Option<V> {
        if self@.contains_key(*key) {
            Some(self@[*key])
        } else {
            None
        }
    }

    proof fn lemma_empty_designates_nothing(&self, key: &'a K) {
    }
}

/// Lookup of `String` keys by string slice: the slice designates the key with the same
/// characters.
impl<'a, V> Lookup<&'a str> for BTreeMap<String, V> {
    open spec fn spec_get(&self, key: &'a str) -> Option<V> {
        if has_key_with_chars(self@, key@) {
            Some(self@[key_with_chars(self@, key@)])
        } else {
            None
        }
    }

    proof fn lemma_empty_designates_nothing(&self, key: &'a str) {
    }
}

impl<'a, V> Get<&'a str> for BTreeMap<String, V> {
    fn get(&self, key: &'a str) -> (r: Option<&V>) {
        btree_map_get_str(self, key)
    }
}

impl<'a, V> GetMut<&'a str> for BTreeMap<String, V> {
    open spec fn spec_set(&self, key: &'a str, item: V) -> Map<String, V> {
        self@.insert(key_with_chars(self@, key@), item)
    }

    fn get_mut(&mut self, key: &'a str) -> (r: Option<&mut V>) {
        btree_map_get_mut_str(self, key)
    }
}

impl<'a, V> GetKeyValue<&'a str> for BTreeMap<String, V> {
    open spec fn spec_get_key(&self, key: &'a str) -> Option<String> {
        if has_key_with_chars(self@, key@) {
            Some(key_with_chars(self@, key@))
        } else {
            None
        }
    }

    fn get_key_value(&self, key: &'a str) -> (r: Option<(&String, &V)>) {
        btree_map_get_key_value_str(self, key)
    }
}

impl<'a, V> Remove<&'a str> for BTreeMap<String, V> {
    open spec fn spec_remove(&self, key: &'a str) -> Map<String, V> {
        self@.remove(key_with_chars(self@, key@))
    }

    fn remove(&mut self, key: &'a str) -> (r: Option<V>) {
        let ghost before = self@;
        let r = btree_map_remove_str(self, key);
        proof {
            if Self::obeys_model() && r is Some {
                assert(before.dom().finite());
                assert(self@.dom() =~= before.dom().remove(key_with_chars(before, key@)));
            }
        }
        r
    }
}

impl<'a, K: Ord, V> Get<&'a K> for BTreeMap<K, V> {
    fn get(&self, key: &'a K) -> (r: Option<&V>) {
        BTreeMap::get(self, key)
    }
}

impl<'a, K: Ord, V> GetMut<&'a K> for BTreeMap<K, V> {
    open spec fn spec_set(&self, key: &'a K, item: V) -> Map<K, V> {
        self@.insert(*key, item)
    }

    fn get_mut(&mut self, key: &'a K) -> (r: Option<&mut V>) {
        btree_map_get_mut(self, key)
    }
}

impl<'a, K: Ord, V> GetKeyValue<&'a K> for BTreeMap<K, V> {
    open spec fn spec_get_key(&self, key: &'a K) -> Option<K> {
        if self@.contains_key(*key) {
            Some(*key)
        } else {
            None
        }
    }

    fn get_key_value(&self, key: &'a K) -> (r: Option<(&K, &V)>) {
        btree_map_get_key_value(self, key)
    }
}

impl<K: Ord, V> MapInsert<K> for BTreeMap<K, V> {
    type Output = Option<V>;

    /// The value goes under `key`; the value it replaces, if any, is returned.
    open spec fn spec_map_insert(
        &self,
        key: K,
        value: V,
        after: Map<K, V>,
        out: Option<V>,
    ) -> bool {
        &&& after == self@.insert(key, value)
        &&& out == if self@.contains_key(key) {
            Some(self@[key])
        } else {
            None
        }
    }

    fn insert(&mut self, key: K, value: V) -> (r: Option<V>) {
        BTreeMap::insert(self, key, value)
    }
}

impl<'a, K: Ord, V> Remove<&'a K> for BTreeMap<K, V> {
    open spec fn spec_remove(&self, key: &'a K) -> Map<K, V> {
        self@.remove(*key)
    }

    fn remove(&mut self, key: &'a K) -> (r: Option<V>) {
        let ghost before = self@;
        let r = BTreeMap::remove(self, key);
        proof {
            if Self::obeys_model() {
                if r is None {
                    assert(self@ =~= before);
                } else {
                    assert(before.dom().finite());
                    assert(self@.dom() =~= before.dom().remove(*key));
                }
            }
        }
        r
    }
}

impl<K: Ord, V> MapIter for BTreeMap<K, V> {
    open spec fn spec_entries(&self) -> Map<K, V> {
        self@
    }

    /// Keys come out in increasing order.
    open spec fn spec_in_order(&self, keys: Seq<K>) -> bool {
        forall|i: int, j: int|
            #![trigger keys[i], keys[j]]
            0 <= i < j < keys.len() ==> keys[i].cmp_spec(&keys[j]) == core::cmp::Ordering::Less
    }

    fn iter(&self) -> (r: Vec<(&K, &V)>) {
        let n: usize = BTreeMap::len(self);
        let mut it = BTreeMap::iter(self);
        let ghost all = spec_btree_map_iter(self).remaining();
        let ghost ordered = Self::obeys_model() ==> {
            &&& all.no_duplicates()
            &&& increasing_seq(all.map_values(|kv: (&K, &V)| *kv.0))
        };
        assert(ordered);
        let mut out: Vec<(&K, &V)> = Vec::new();
        let mut i: usize = 0;
        while i < n
            invariant
                i <= n,
                ordered,
                it.obeys_prophetic_iter_laws(),
                Self::obeys_model() ==> {
                    &&& all == out@ + it.remaining()
                    &&& it.remaining().len() == n - i
                },
            decreases n - i,
        {
            match advance(&mut it) {
                Some(kv) => {
                    out.push(kv);
                },
                None => {},
            }
            i = i + 1;
        }
        proof {
            if Self::obeys_model() {
                assert(out@ =~= all);
                assert(out@.map_values(|kv: (&K, &V)| *kv.0) =~= all.map_values(
                    |kv: (&K, &V)| *kv.0,
                ));
                assert forall|i: int, j: int| 0 <= i < j < out@.len() implies *(#[trigger] out@[i]).0
                    != *(#[trigger] out@[j]).0 by {
                    if *out@[i].0 == *out@[j].0 {
                        assert(self@.contains_key(*all[i].0));
                        assert(all[i] == all[j]);
                    }
                }
            }
        }
        out
    }
}

impl<K: Ord, V> Iter for BTreeMap<K, V> {
    /// Each value once, in the order in which the map hands out its pairs.
    open spec fn spec_traversal(&self, items: Seq<V>) -> bool {
        exists|keys: Seq<K>|
            {
                &&& #[trigger] self.spec_in_order(keys)
                &&& keys.len() == items.len()
                &&& forall|i: int|
                    0 <= i < keys.len() ==> self@.contains_key(#[trigger] keys[i]) && items[i]
                        == self@[keys[i]]
            }
    }

    fn iter(&self) -> (r: Vec<&V>) {
        let pairs = MapIter::iter(self);
        let mut out: Vec<&V> = Vec::new();
        let mut i: usize = 0;
        while i < pairs.len()
            invariant
                i <= pairs@.len(),
                out@.len() == i,
                forall|j: int| 0 <= j < i ==> out@[j] == pairs@[j].1,
            decreases pairs@.len() - i,
        {
            out.push(pairs[i].1);
            i = i + 1;
        }
        proof {
            if Self::obeys_model() {
                let keys = pairs@.map_values(|kv: (&K, &V)| *kv.0);
                assert(self.spec_in_order(keys));
                assert forall|i: int| 0 <= i < keys.len() implies self@.contains_key(
                    #[trigger] keys[i],
                ) && out@.unref()[i] == self@[keys[i]] by {
                    assert(self.spec_entries().contains_key(*pairs@[i].0));
                }
            }
        }
        out
    }
}

} // verus!
