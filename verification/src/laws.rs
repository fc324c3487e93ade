//! What holds of the pool in every state: the laws that the operations obey
//! together.

use crate::item::ItemView;
use crate::recency::{
    barrier_of, lemma_drop_first, lemma_entry_found, lemma_promoted, lemma_push_new,
    lemma_without, position,
};
use crate::state::{
    lemma_remove_absent, lemma_sum_insert, lemma_sum_remove, PlanView, PoolView, RegistrationView,
};
use vstd::prelude::*;

verus! {

/// Single flight. A request is told that it missed exactly when the key is
/// unknown, and the miss reserves the key under the request's barrier. While a
/// key is reserved, a request for any key leaves the reservation alone, and a
/// request for the reserved key is told to wait for the barrier of the first:
/// no second miss is handed out for it.
pub proof fn single_flight(
    pool: PoolView,
    key: Seq<char>,
    barrier: u64,
    later_key: Seq<char>,
    later_barrier: u64,
)
    requires
        pool.wf(),
    ensures
        pool.plan(key) is Miss <==> !pool.known(key),
        pool.plan(key) is Miss ==> pool.begin_fetch(key, barrier).holds_reservation(key, barrier),
        pool.holds_reservation(key, barrier) ==> {
            &&& pool.plan(key) == (PlanView::Wait { barrier })
            &&& pool.begin_fetch(later_key, later_barrier).holds_reservation(key, barrier)
            &&& pool.begin_fetch(later_key, later_barrier).plan(key) == (PlanView::Wait { barrier })
        },
{
    if !pool.known(key) {
        lemma_push_new(pool.recency, key, barrier);
    }
    if pool.holds_reservation(key, barrier) {
        if !pool.known(later_key) {
            lemma_push_new(pool.recency, later_key, later_barrier);
        } else if pool.registered(later_key) {
            lemma_promoted(pool.recency, later_key);
        }
    }
}

/// The size that a registration frees: that of the item it evicts.
pub open spec fn freed(pool: PoolView, key: Seq<char>, barrier: u64, item: ItemView) -> nat {
    match pool.registration(key, barrier, item) {
        RegistrationView::Evicted { item: Some(evicted), .. } => evicted.size as nat,
        _ => 0,
    }
}

/// Capacity. A registration adds the size of the new item to the sum and takes
/// off the size of the item it evicts. So if the pool was within its budget
/// before, counting out what is evicted, it is over it afterwards by no more
/// than the size of the item that came in.
pub proof fn capacity_bound(pool: PoolView, key: Seq<char>, barrier: u64, item: ItemView)
    requires
        pool.wf(),
        pool.holds_reservation(key, barrier),
    ensures
        pool.register(key, barrier, item).total_size() == pool.total_size() + item.size - freed(
            pool,
            key,
            barrier,
            item,
        ),
        pool.total_size() - freed(pool, key, barrier, item) <= pool.max_size <==> pool.register(
            key,
            barrier,
            item,
        ).total_size() <= pool.max_size + item.size,
        pool.total_size() <= pool.max_size ==> pool.register(key, barrier, item).total_size()
            <= pool.max_size + item.size,
{
    let grown = pool.with_item(key, item);
    lemma_sum_insert(pool.items, key, item);
    lemma_remove_absent(pool.items, key);
    assert(grown.total_size() == pool.total_size() + item.size);
    if grown.must_evict() {
        let oldest = grown.recency[0].0;
        if grown.registered(oldest) {
            lemma_sum_remove(grown.items, oldest);
        } else {
            lemma_remove_absent(grown.items, oldest);
        }
    }
}

/// Using a key makes it the most recently used one: a hit moves the key's entry
/// behind all others, which keep their order.
pub proof fn hit_makes_most_recent(pool: PoolView, key: Seq<char>, barrier: u64)
    requires
        pool.wf(),
        pool.registered(key),
    ensures
        pool.begin_fetch(key, barrier).recency == pool.recency.remove(
            position(pool.recency, key),
        ).push(pool.recency[position(pool.recency, key)]),
        pool.begin_fetch(key, barrier).recency.last().0 == key,
        pool.begin_fetch(key, barrier).items == pool.items,
{
    lemma_promoted(pool.recency, key);
}

/// The least recently used key is the one that leaves. When a registration
/// has to evict, the key that goes is the first in the recency order, the new
/// key aside; all other keys stay known, and the new item is registered.
pub proof fn eviction_takes_least_recent(
    pool: PoolView,
    key: Seq<char>,
    barrier: u64,
    item: ItemView,
)
    requires
        pool.wf(),
        pool.holds_reservation(key, barrier),
        pool.with_item(key, item).must_evict(),
    ensures
        ({
            let oldest = if pool.recency[0].0 == key {
                pool.recency[1].0
            } else {
                pool.recency[0].0
            };
            let after = pool.register(key, barrier, item);
            &&& oldest != key
            &&& pool.registration(key, barrier, item) matches RegistrationView::Evicted {
                key: gone,
                ..
            } && gone == oldest
            &&& !after.known(oldest)
            &&& !after.registered(oldest)
            &&& after.registered(key) && after.items[key] == item
            &&& forall|k: Seq<char>| k != oldest ==> (#[trigger] after.known(k) <==> pool.known(k))
            &&& forall|k: Seq<char>|
                k != oldest && k != key ==> (#[trigger] after.registered(k) <==> pool.registered(k))
        }),
{
    let p = position(pool.recency, key);
    let grown = pool.with_item(key, item);
    lemma_promoted(pool.recency, key);
    lemma_entry_found(pool.recency, p);
    lemma_entry_found(pool.recency, 0);
    lemma_entry_found(pool.recency, 1);
    assert(grown.recency == pool.recency.remove(p).push(pool.recency[p]));
    assert(grown.recency[0] == if p == 0 {
        pool.recency[1]
    } else {
        pool.recency[0]
    });
    lemma_drop_first(grown.recency);
    lemma_entry_found(grown.recency, 0);
    lemma_entry_found(grown.recency, grown.recency.len() - 1);
}

/// A registered item is served. After a registration that was not stale, a
/// request for the key is a hit on the item that was registered.
pub proof fn registered_item_is_hit(pool: PoolView, key: Seq<char>, barrier: u64, item: ItemView)
    requires
        pool.wf(),
        pool.holds_reservation(key, barrier),
    ensures
        pool.register(key, barrier, item).plan(key) == (PlanView::Hit { item, barrier }),
{
    let grown = pool.with_item(key, item);
    lemma_promoted(pool.recency, key);
    if grown.must_evict() {
        lemma_drop_first(grown.recency);
        lemma_entry_found(grown.recency, 0);
        lemma_entry_found(grown.recency, grown.recency.len() - 1);
    }
}

/// Cleanup. An item that leaves the pool, by invalidation or by eviction, is
/// handed out incomplete, so that its file is deleted when its last user lets
/// go; and the pool no longer vouches for the file of that key, whatever
/// barrier the download had.
pub proof fn departed_items_are_discarded(
    pool: PoolView,
    key: Seq<char>,
    barrier: u64,
    item: ItemView,
    any_barrier: u64,
)
    requires
        pool.wf(),
    ensures
        pool.removed(key) matches Some(gone) ==> gone.discard_on_release(),
        !pool.remove(key).known(key),
        pool.remove(key).discard_on_release(key, any_barrier),
        pool.registration(key, barrier, item) matches RegistrationView::Evicted {
            key: oldest,
            item: gone,
        } ==> {
            &&& gone matches Some(evicted) ==> evicted.discard_on_release()
            &&& !pool.register(key, barrier, item).known(oldest)
            &&& pool.register(key, barrier, item).discard_on_release(oldest, any_barrier)
        },
{
    lemma_without(pool.recency, key);
    if pool.holds_reservation(key, barrier) {
        let grown = pool.with_item(key, item);
        lemma_promoted(pool.recency, key);
        if grown.must_evict() {
            lemma_drop_first(grown.recency);
        }
    }
}

/// A failed fetch leaves no trace. Withdrawing a reservation makes the key
/// unknown again, so that the next request for it is a miss of its own; the
/// registered items and all other keys stay as they are.
pub proof fn failed_fetch_leaves_no_trace(
    pool: PoolView,
    key: Seq<char>,
    barrier: u64,
    other: Seq<char>,
)
    requires
        pool.wf(),
        pool.holds_reservation(key, barrier),
    ensures
        !pool.abort(key, barrier).known(key),
        pool.abort(key, barrier).plan(key) == PlanView::Miss,
        pool.abort(key, barrier).items == pool.items,
        other != key ==> pool.abort(key, barrier).plan(other) == pool.plan(other),
{
    lemma_without(pool.recency, key);
}

/// A file is kept only for a complete item. The pool asks for the file of a
/// download to be kept exactly when the item is still registered under the
/// download's barrier and has been completed.
pub proof fn kept_files_are_complete(pool: PoolView, key: Seq<char>, barrier: u64)
    ensures
        !pool.discard_on_release(key, barrier) <==> pool.registered(key) && barrier_of(
            pool.recency,
            key,
        ) == Some(barrier) && pool.items[key].completed,
{
}

/// A completed download is complete and has its real size; nothing else
/// changes.
pub proof fn completion_is_exact(pool: PoolView, key: Seq<char>, barrier: u64, actual: u64)
    requires
        pool.wf(),
        pool.completable(key, barrier),
    ensures
        pool.complete(key, barrier, actual).status(key, barrier) == Some(
            pool.items[key].finished(actual),
        ),
        !pool.complete(key, barrier, actual).discard_on_release(key, barrier),
        !pool.complete(key, barrier, actual).completable(key, barrier),
        pool.complete(key, barrier, actual).recency == pool.recency,
{
}

} // verus!
