//! The registered items, held in a `dashmap::DashMap` from key to item.
//!
//! The contents of the map are described as a mathematical map from key to the
//! value of the item.

use crate::item::{CacheItem, ItemView};
use dashmap::DashMap;
use vstd::prelude::*;

verus! {

#[verifier::external_type_specification]
#[verifier::external_body]
#[verifier::reject_recursive_types(K)]
#[verifier::reject_recursive_types(V)]
#[verifier::reject_recursive_types(S)]
pub struct ExDashMap<K, V, S>(DashMap<K, V, S>);

/// The items of a store, by key.
pub uninterp spec fn dash_items(store: DashMap<String, CacheItem>) -> Map<Seq<char>, ItemView>;

/// `keys` lists every key of `items` once.
pub open spec fn lists_keys(keys: Seq<Seq<char>>, items: Map<Seq<char>, ItemView>) -> bool {
    &&& keys.no_duplicates()
    &&& forall|k: Seq<char>| keys.contains(k) <==> items.dom().contains(k)
}

/// The sizes of the items under `keys`, in that order.
pub open spec fn sizes_of(keys: Seq<Seq<char>>, items: Map<Seq<char>, ItemView>) -> Seq<u64> {
    Seq::new(keys.len(), |i: int| items[keys[i]].size)
}

/// `sizes` holds the size of every item once, in some order.
pub open spec fn lists_sizes(sizes: Seq<u64>, items: Map<Seq<char>, ItemView>) -> bool {
    exists|keys: Seq<Seq<char>>| #[trigger] lists_keys(keys, items) && sizes == sizes_of(keys, items)
}

/// The store without items.
pub open spec fn no_items() -> Map<Seq<char>, ItemView> {
    Map::empty()
}

/// `DashMap::new`. Trusted: the new store is empty.
#[verifier::external_body]
pub(crate) fn store_new() -> (store: DashMap<String, CacheItem>)
    ensures
        dash_items(store) == no_items(),
{
    DashMap::new()
}

/// `DashMap::contains_key`. Trusted: whether the key has an item.
#[verifier::external_body]
pub(crate) fn store_contains(store: &DashMap<String, CacheItem>, key: &str) -> (found: bool)
    ensures
        found == dash_items(*store).dom().contains(key@),
{
    store.contains_key(key)
}

/// `DashMap::get`, handing out a copy of the item. Trusted: the item under the
/// key, if there is one.
#[verifier::external_body]
pub(crate) fn store_get(store: &DashMap<String, CacheItem>, key: &str) -> (item: Option<CacheItem>)
    ensures
        match item {
            Some(found) => dash_items(*store).dom().contains(key@) && found@ == dash_items(
                *store,
            )[key@],
            None => !dash_items(*store).dom().contains(key@),
        },
{
    store.get(key).map(|entry| entry.value().duplicate())
}

/// `DashMap::insert`. Trusted: the key holds the new item afterwards, the other
/// keys are untouched, and the item that was there before is returned.
#[verifier::external_body]
pub(crate) fn store_insert(store: &mut DashMap<String, CacheItem>, key: String, item: CacheItem) -> (previous:
    Option<CacheItem>)
    ensures
        dash_items(*final(store)) == dash_items(*old(store)).insert(key@, item@),
        match previous {
            Some(found) => dash_items(*old(store)).dom().contains(key@) && found@ == dash_items(
                *old(store),
            )[key@],
            None => !dash_items(*old(store)).dom().contains(key@),
        },
{
    store.insert(key, item)
}

/// `DashMap::remove`, keeping the item of the pair it returns. Trusted: the key
/// has no item afterwards, the other keys are untouched, and the item that was
/// there is returned.
#[verifier::external_body]
pub(crate) fn store_remove(store: &mut DashMap<String, CacheItem>, key: &str) -> (removed: Option<
    CacheItem,
>)
    ensures
        dash_items(*final(store)) == dash_items(*old(store)).remove(key@),
        match removed {
            Some(found) => dash_items(*old(store)).dom().contains(key@) && found@ == dash_items(
                *old(store),
            )[key@],
            None => !dash_items(*old(store)).dom().contains(key@),
        },
{
    store.remove(key).map(|pair| pair.1)
}

/// `DashMap::iter`, taking the size of each item. Trusted: every item
/// contributes its size once; the order in which the map is walked is not
/// known.
#[verifier::external_body]
pub(crate) fn store_sizes(store: &DashMap<String, CacheItem>) -> (sizes: Vec<u64>)
    ensures
        lists_sizes(sizes@, dash_items(*store)),
{
    store.iter().map(|entry| entry.value().size()).collect()
}

} // verus!
