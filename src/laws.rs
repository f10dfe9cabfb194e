use vstd::prelude::*;

use std::collections::{BTreeMap, HashMap};

use crate::capabilities::{Clear, Collection, Lookup, MapInsert, Remove};
use crate::slab_map::SlabMap;

verus! {

/// After `clear`, a container holds nothing and no key designates an item:
/// for any container with `Clear` and a lookup, `len() == 0`, `is_empty()` and
/// `get(key)` is `None` for every key.
pub proof fn lemma_clear_empties<T, C: Clear + Lookup<T>>(after: C, key: T)
    requires
        after.model() == C::empty_model(),
    ensures
        after.spec_get(key) is None,
{
    after.lemma_empty_designates_nothing(key);
}

/// After `insert(key, value)` on a hash map, `get(&key)` yields `value`, and every
/// other key designates what it designated before, so later insertions under other
/// keys leave `get(&key)` unchanged.
pub proof fn lemma_hash_map_insert_then_get<K: std::hash::Hash + Eq, V>(
    before: HashMap<K, V>,
    after: HashMap<K, V>,
    key: K,
    value: V,
    out: Option<V>,
    other: K,
)
    requires
        HashMap::<K, V>::obeys_model(),
        MapInsert::<K>::spec_map_insert(&before, key, value, after.model(), out),
    ensures
        after.spec_get(&key) == Some(value),
        out == before.spec_get(&key),
        other != key ==> after.spec_get(&other) == before.spec_get(&other),
{
}

/// On a hash map, when `remove(&key)` returns an item, `get(&key)` is `None` afterwards
/// and the length drops by exactly one; when the key is absent, `remove` returns `None`
/// and the length is unchanged.
pub proof fn lemma_hash_map_remove_then_absent<K: std::hash::Hash + Eq, V>(
    before: HashMap<K, V>,
    after: HashMap<K, V>,
    key: K,
)
    requires
        HashMap::<K, V>::obeys_model(),
        before.spec_get(&key) is Some ==> after.model() == Remove::<&K>::spec_remove(
            &before,
            &key,
        ),
        before.spec_get(&key) is None ==> after.model() == before.model(),
    ensures
        after.spec_get(&key) is None,
        before.spec_get(&key) is Some ==> after.spec_len() + 1 == before.spec_len(),
        before.spec_get(&key) is None ==> after.spec_len() == before.spec_len(),
{
    assert(before@.dom().finite());
}

/// After `insert(key, value)` on a B-tree map, `get(&key)` yields `value`, and every
/// other key designates what it designated before.
pub proof fn lemma_btree_map_insert_then_get<K: Ord, V>(
    before: BTreeMap<K, V>,
    after: BTreeMap<K, V>,
    key: K,
    value: V,
    out: Option<V>,
    other: K,
)
    requires
        BTreeMap::<K, V>::obeys_model(),
        MapInsert::<K>::spec_map_insert(&before, key, value, after.model(), out),
    ensures
        after.spec_get(&key) == Some(value),
        out == before.spec_get(&key),
        other != key ==> after.spec_get(&other) == before.spec_get(&other),
{
}

/// On a B-tree map, when `remove(&key)` returns an item, `get(&key)` is `None` afterwards
/// and the length drops by exactly one; when the key is absent, the length is unchanged.
pub proof fn lemma_btree_map_remove_then_absent<K: Ord, V>(
    before: BTreeMap<K, V>,
    after: BTreeMap<K, V>,
    key: K,
)
    requires
        BTreeMap::<K, V>::obeys_model(),
        before.spec_get(&key) is Some ==> after.model() == Remove::<&K>::spec_remove(
            &before,
            &key,
        ),
        before.spec_get(&key) is None ==> after.model() == before.model(),
    ensures
        after.spec_get(&key) is None,
        before.spec_get(&key) is Some ==> after.spec_len() + 1 == before.spec_len(),
        before.spec_get(&key) is None ==> after.spec_len() == before.spec_len(),
{
    assert(before@.dom().finite());
}

/// On a slab, when `remove(key)` returns an item, `get(key)` is `None` afterwards and
/// the length drops by exactly one; when the key is not in use, the length is unchanged.
pub proof fn lemma_slab_remove_then_absent<T>(before: SlabMap<T>, after: SlabMap<T>, key: usize)
    requires
        before.spec_get(key) is Some ==> after.model() == before.spec_remove(key),
        before.spec_get(key) is None ==> after.model() == before.model(),
        before@.dom().finite(),
    ensures
        after.spec_get(key) is None,
        before.spec_get(key) is Some ==> after.spec_len() + 1 == before.spec_len(),
        before.spec_get(key) is None ==> after.spec_len() == before.spec_len(),
{
}

/// For a hash map keyed by `String`, looking up a string slice finds what looking up an
/// owned `String` with the same characters finds. The last requirement is what the key
/// model means for `String`, whose `==` compares characters: strings with the same
/// characters are the same key.
pub proof fn lemma_hash_map_str_lookup_agrees<V>(m: HashMap<String, V>, owned: String, borrowed: &str)
    requires
        HashMap::<String, V>::obeys_model(),
        owned@ == borrowed@,
        forall|k1: String, k2: String| #[trigger] k1@ == #[trigger] k2@ ==> k1 == k2,
    ensures
        Lookup::<&str>::spec_get(&m, borrowed) == Lookup::<&String>::spec_get(&m, &owned),
{
    if m@.contains_key(owned) {
        assert(m@.contains_key(owned) && owned@ == borrowed@);
    } else {
        assert forall|k: String| #[trigger] m@.contains_key(k) implies k@ != borrowed@ by {
            if k@ == borrowed@ {
                assert(k@ == owned@);
            }
        }
    }
}

/// For a B-tree map keyed by `String`, looking up a string slice finds what looking up an
/// owned `String` with the same characters finds. The last requirement is what the key
/// model means for `String`, whose `==` compares characters: strings with the same
/// characters are the same key.
pub proof fn lemma_btree_map_str_lookup_agrees<V>(m: BTreeMap<String, V>, owned: String, borrowed: &str)
    requires
        BTreeMap::<String, V>::obeys_model(),
        owned@ == borrowed@,
        forall|k1: String, k2: String| #[trigger] k1@ == #[trigger] k2@ ==> k1 == k2,
    ensures
        Lookup::<&str>::spec_get(&m, borrowed) == Lookup::<&String>::spec_get(&m, &owned),
{
    if m@.contains_key(owned) {
        assert(m@.contains_key(owned) && owned@ == borrowed@);
    } else {
        assert forall|k: String| #[trigger] m@.contains_key(k) implies k@ != borrowed@ by {
            if k@ == borrowed@ {
                assert(k@ == owned@);
            }
        }
    }
}

} // verus!
