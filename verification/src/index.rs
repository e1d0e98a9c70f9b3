//! The ordered key index of the store, kept in a stable B-tree map.

use vstd::prelude::*;

use ic_stable_structures::{BTreeMap, VectorMemory};

verus! {

/// A stable B-tree map from auction key to record slot, in a memory of
/// its own.
///
/// The map lives behind this struct because its type is bounded by traits
/// that the verifier does not know; everything said about it is said by the
/// contracts of the functions below.
#[verifier::external_body]
pub struct KeyIndex {
    inner: BTreeMap<u64, u64, VectorMemory>,
}

/// The entries that a key index holds: each auction key with its slot.
pub uninterp spec fn index_entries(index: KeyIndex) -> Map<u64, u64>;

/// Whether `pairs` lists `entries` in ascending key order: every pair is an
/// entry, every key has its pair, and the keys strictly increase.
pub open spec fn lists_in_key_order(pairs: Seq<(u64, u64)>, entries: Map<u64, u64>) -> bool {
    &&& forall|i: int|
        0 <= i < pairs.len() ==> #[trigger] entries.contains_pair(pairs[i].0, pairs[i].1)
    &&& forall|k: u64| #[trigger]
        entries.contains_key(k) ==> exists|i: int|
            0 <= i < pairs.len() && (#[trigger] pairs[i]).0 == k
    &&& forall|i: int, j: int|
        0 <= i < j < pairs.len() ==> (#[trigger] pairs[i]).0 < (#[trigger] pairs[j]).0
}

/// `BTreeMap::new` on a fresh memory of its own: a map without entries.
#[verifier::external_body]
pub(crate) fn index_new() -> (fresh: KeyIndex)
    ensures
        index_entries(fresh) =~= Map::empty(),
{
    KeyIndex { inner: BTreeMap::new(VectorMemory::default()) }
}

/// `BTreeMap::get`: the slot stored under `key`, if there is one.
#[verifier::external_body]
pub(crate) fn index_get(index: &KeyIndex, key: u64) -> (slot: Option<u64>)
    ensures
        slot == (if index_entries(*index).contains_key(key) {
            Some(index_entries(*index)[key])
        } else {
            None
        }),
{
    index.inner.get(&key)
}

/// `BTreeMap::insert`: stores `slot` under `key`, replacing what was there,
/// and returns the slot that was stored under `key` before, if any. Other
/// keys keep their slots.
#[verifier::external_body]
pub(crate) fn index_insert(index: &mut KeyIndex, key: u64, slot: u64) -> (previous: Option<u64>)
    ensures
        index_entries(*final(index)) == index_entries(*old(index)).insert(key, slot),
        previous == (if index_entries(*old(index)).contains_key(key) {
            Some(index_entries(*old(index))[key])
        } else {
            None
        }),
{
    index.inner.insert(key, slot)
}

/// `BTreeMap::len`: the number of keys in the map.
#[verifier::external_body]
pub(crate) fn index_len(index: &KeyIndex) -> (count: u64)
    ensures
        count == index_entries(*index).dom().len(),
{
    index.inner.len()
}

/// `BTreeMap::iter`: the entries of the map, sorted by key.
#[verifier::external_body]
pub(crate) fn index_pairs(index: &KeyIndex) -> (pairs: Vec<(u64, u64)>)
    ensures
        lists_in_key_order(pairs@, index_entries(*index)),
{
    index.inner.iter().collect()
}

} // verus!
