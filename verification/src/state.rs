//! The pool as a mathematical state: which items are registered, in which order
//! the keys were used, and what each operation of the pool does to both.

use crate::item::ItemView;
use crate::recency::{
    barrier_of, distinct_keys, has_key, lemma_drop_first, lemma_promoted, lemma_push_new,
    lemma_without, promoted, without,
};
use crate::store::{lists_keys, sizes_of};
use vstd::prelude::*;

verus! {

/// The sum of the sizes of all items.
pub open spec fn sum_sizes(items: Map<Seq<char>, ItemView>) -> nat
    decreases items.dom().len(),
    when items.dom().finite()
{
    if items.dom().len() == 0 {
        0
    } else {
        let k = items.dom().choose();
        items[k].size as nat + sum_sizes(items.remove(k))
    }
}

/// The sum of a sequence of sizes.
pub open spec fn sum_seq(sizes: Seq<u64>) -> nat
    decreases sizes.len(),
{
    if sizes.len() == 0 {
        0
    } else {
        sum_seq(sizes.drop_last()) + sizes.last() as nat
    }
}

/// The sum of the sizes splits into one item and the rest.
pub proof fn lemma_sum_remove(items: Map<Seq<char>, ItemView>, key: Seq<char>)
    requires
        items.dom().finite(),
        items.dom().contains(key),
    ensures
        sum_sizes(items) == items[key].size + sum_sizes(items.remove(key)),
    decreases items.dom().len(),
{
    let c = items.dom().choose();
    if c != key {
        lemma_sum_remove(items.remove(c), key);
        lemma_sum_remove(items.remove(key), c);
        assert(items.remove(c).remove(key) =~= items.remove(key).remove(c));
    }
}

/// Putting an item under a key replaces what the key contributed to the sum.
pub proof fn lemma_sum_insert(items: Map<Seq<char>, ItemView>, key: Seq<char>, item: ItemView)
    requires
        items.dom().finite(),
    ensures
        sum_sizes(items.insert(key, item)) == item.size + sum_sizes(items.remove(key)),
{
    lemma_sum_remove(items.insert(key, item), key);
    assert(items.insert(key, item).remove(key) =~= items.remove(key));
}

/// Taking out a key that has no item changes nothing.
pub proof fn lemma_remove_absent(items: Map<Seq<char>, ItemView>, key: Seq<char>)
    requires
        !items.dom().contains(key),
    ensures
        items.remove(key) == items,
{
    assert(items.remove(key) =~= items);
}

/// The sizes of the items add up to the same sum in whatever order they are
/// listed.
pub proof fn lemma_sum_listing(items: Map<Seq<char>, ItemView>, keys: Seq<Seq<char>>)
    requires
        items.dom().finite(),
        lists_keys(keys, items),
    ensures
        sum_seq(sizes_of(keys, items)) == sum_sizes(items),
    decreases keys.len(),
{
    if keys.len() == 0 {
        assert forall|k: Seq<char>| !items.dom().contains(k) by {
            assert(!keys.contains(k));
        }
        assert(items.dom() =~= Set::empty());
    } else {
        let k = keys.last();
        let rest = keys.drop_last();
        let fewer = items.remove(k);
        assert(keys.contains(k));
        assert forall|x: Seq<char>| rest.contains(x) <==> fewer.dom().contains(x) by {
            if rest.contains(x) {
                let i = choose|i: int| 0 <= i < rest.len() && rest[i] == x;
                assert(keys[i] == x);
                assert(keys.contains(x));
                assert(keys[i] != keys[keys.len() - 1]);
            }
            if fewer.dom().contains(x) {
                assert(keys.contains(x));
                let i = choose|i: int| 0 <= i < keys.len() && keys[i] == x;
                assert(i < keys.len() - 1);
                assert(rest[i] == x);
            }
        }
        assert(rest.no_duplicates());
        assert(sizes_of(keys, items).drop_last() =~= sizes_of(rest, fewer));
        lemma_sum_remove(items, k);
        lemma_sum_listing(fewer, rest);
    }
}

/// How far the download of an item has come.
#[derive(Clone, Copy, Debug, PartialEq, Eq, Structural)]
pub struct Progress {
    pub completed: bool,
    /// The expected length while the download runs, the real one afterwards.
    pub size: u64,
}

/// What the pool tells a request to do.
pub enum PlanView {
    /// The key is unknown: the request has reserved it and must fetch the object.
    Miss,
    /// Another request is fetching the object: wait for its barrier, then ask
    /// again.
    Wait { barrier: u64 },
    /// The object is registered.
    Hit { item: ItemView, barrier: u64 },
}

/// What a registration did.
pub enum RegistrationView {
    /// The reservation was gone, or the key was registered already: nothing
    /// changed.
    Stale,
    /// The item is registered, and the pool stayed within its budget or had
    /// nothing else to give up.
    Registered,
    /// The item is registered, and the least recently used key has left the
    /// pool, with its item if it had one.
    Evicted { key: Seq<char>, item: Option<ItemView> },
}

/// The mathematical value of a pool.
pub struct PoolView {
    /// The directory that holds the files.
    pub root: Seq<char>,
    /// The budget for the sum of the sizes; 0 means that there is none.
    pub max_size: u64,
    /// The registered items.
    pub items: Map<Seq<char>, ItemView>,
    /// The known keys with their barriers, least recently used first.
    pub recency: Seq<(Seq<char>, u64)>,
}

impl PoolView {
    /// The invariant of a pool: no key is known twice, and every registered key
    /// is known.
    pub open spec fn wf(self) -> bool {
        &&& distinct_keys(self.recency)
        &&& self.items.dom().finite()
        &&& forall|k: Seq<char>| self.items.dom().contains(k) ==> has_key(self.recency, k)
    }

    pub open spec fn empty(root: Seq<char>, max_size: u64) -> PoolView {
        PoolView { root, max_size, items: Map::empty(), recency: Seq::empty() }
    }

    /// The key is known, registered or reserved.
    pub open spec fn known(self, key: Seq<char>) -> bool {
        has_key(self.recency, key)
    }

    pub open spec fn registered(self, key: Seq<char>) -> bool {
        self.items.dom().contains(key)
    }

    /// The key is reserved under this barrier.
    pub open spec fn holds_reservation(self, key: Seq<char>, barrier: u64) -> bool {
        barrier_of(self.recency, key) == Some(barrier) && !self.registered(key)
    }

    pub open spec fn total_size(self) -> nat {
        sum_sizes(self.items)
    }

    pub open spec fn over_budget(self) -> bool {
        self.max_size != 0 && self.total_size() > self.max_size
    }

    /// What a request for the key is told.
    pub open spec fn plan(self, key: Seq<char>) -> PlanView {
        if !self.known(key) {
            PlanView::Miss
        } else if !self.registered(key) {
            PlanView::Wait { barrier: barrier_of(self.recency, key).unwrap() }
        } else {
            PlanView::Hit { item: self.items[key], barrier: barrier_of(self.recency, key).unwrap() }
        }
    }

    /// The pool after a request for the key: an unknown key is reserved under
    /// the barrier that the request brought, as the most recently used one; a
    /// registered key becomes the most recently used one; and a key that is
    /// only reserved stays as it is.
    pub open spec fn begin_fetch(self, key: Seq<char>, barrier: u64) -> PoolView {
        if !self.known(key) {
            PoolView { recency: self.recency.push((key, barrier)), ..self }
        } else if !self.registered(key) {
            self
        } else {
            PoolView { recency: promoted(self.recency, key), ..self }
        }
    }

    /// The pool with the item registered and its key the most recently used.
    pub open spec fn with_item(self, key: Seq<char>, item: ItemView) -> PoolView {
        PoolView {
            items: self.items.insert(key, item),
            recency: promoted(self.recency, key),
            ..self
        }
    }

    /// The pool without its least recently used key.
    pub open spec fn without_oldest(self) -> PoolView {
        PoolView {
            items: self.items.remove(self.recency[0].0),
            recency: self.recency.drop_first(),
            ..self
        }
    }

    /// A registration gives up the least recently used key when the pool is over
    /// its budget and knows a key besides the new one.
    pub open spec fn must_evict(self) -> bool {
        self.over_budget() && self.recency.len() >= 2
    }

    /// The pool after the download for a reserved key has begun to arrive. If
    /// the key is no longer reserved under the barrier, because it was
    /// invalidated or evicted in the meantime, nothing changes. Otherwise the
    /// item is registered as the most recently used one, and the least recently
    /// used key leaves if the pool is then over its budget: so the key that
    /// comes in is never the one that goes.
    pub open spec fn register(self, key: Seq<char>, barrier: u64, item: ItemView) -> PoolView {
        if !self.holds_reservation(key, barrier) {
            self
        } else if self.with_item(key, item).must_evict() {
            self.with_item(key, item).without_oldest()
        } else {
            self.with_item(key, item)
        }
    }

    /// What `register` reports: whether the item was registered, and which key
    /// left the pool for it, with its item marked incomplete.
    pub open spec fn registration(
        self,
        key: Seq<char>,
        barrier: u64,
        item: ItemView,
    ) -> RegistrationView {
        if !self.holds_reservation(key, barrier) {
            RegistrationView::Stale
        } else if self.with_item(key, item).must_evict() {
            let grown = self.with_item(key, item);
            let oldest = grown.recency[0].0;
            RegistrationView::Evicted {
                key: oldest,
                item: if grown.registered(oldest) {
                    Some(grown.items[oldest].with_completed(false))
                } else {
                    None
                },
            }
        } else {
            RegistrationView::Registered
        }
    }

    /// The pool after a download failed before its item was registered: the
    /// reservation is withdrawn.
    pub open spec fn abort(self, key: Seq<char>, barrier: u64) -> PoolView {
        if self.holds_reservation(key, barrier) {
            PoolView { recency: without(self.recency, key), ..self }
        } else {
            self
        }
    }

    /// The pool without the key.
    pub open spec fn remove(self, key: Seq<char>) -> PoolView {
        PoolView { items: self.items.remove(key), recency: without(self.recency, key), ..self }
    }

    /// The item that `remove` hands out: the registered one, marked incomplete so
    /// that its file goes away with its last user.
    pub open spec fn removed(self, key: Seq<char>) -> Option<ItemView> {
        if self.registered(key) {
            Some(self.items[key].with_completed(false))
        } else {
            None
        }
    }

    /// The item that was registered under the key when it was known by this
    /// barrier.
    pub open spec fn status(self, key: Seq<char>, barrier: u64) -> Option<ItemView> {
        if self.registered(key) && barrier_of(self.recency, key) == Some(barrier) {
            Some(self.items[key])
        } else {
            None
        }
    }

    /// What a reader of the download `key`, `barrier` is told about its item:
    /// the state of the item while it is registered, and an incomplete item
    /// once it has left the pool.
    pub open spec fn progress(self, key: Seq<char>, barrier: u64) -> Progress {
        match self.status(key, barrier) {
            Some(item) => Progress { completed: item.completed, size: item.size },
            None => Progress { completed: false, size: 0 },
        }
    }

    /// A download can be completed while its item is registered under the same
    /// barrier and is not complete yet.
    pub open spec fn completable(self, key: Seq<char>, barrier: u64) -> bool {
        self.status(key, barrier) matches Some(item) && !item.completed
    }

    /// The pool after the copier has written all `actual` bytes of the object.
    pub open spec fn complete(self, key: Seq<char>, barrier: u64, actual: u64) -> PoolView {
        if self.completable(key, barrier) {
            PoolView { items: self.items.insert(key, self.items[key].finished(actual)), ..self }
        } else {
            self
        }
    }

    /// Whether the file of a download has to be deleted when its last user lets
    /// go: always, unless the pool still holds the item as complete.
    pub open spec fn discard_on_release(self, key: Seq<char>, barrier: u64) -> bool {
        match self.status(key, barrier) {
            Some(item) => item.discard_on_release(),
            None => true,
        }
    }
}

/// A request leaves the pool well formed.
pub proof fn begin_fetch_keeps_invariant(pool: PoolView, key: Seq<char>, barrier: u64)
    requires
        pool.wf(),
    ensures
        pool.begin_fetch(key, barrier).wf(),
{
    if !pool.known(key) {
        lemma_push_new(pool.recency, key, barrier);
    } else if pool.registered(key) {
        lemma_promoted(pool.recency, key);
    }
}

/// Registering an item, with the eviction that may follow, leaves the pool well
/// formed.
pub proof fn register_keeps_invariant(pool: PoolView, key: Seq<char>, barrier: u64, item: ItemView)
    requires
        pool.wf(),
    ensures
        pool.with_item(key, item).wf() || !pool.holds_reservation(key, barrier),
        pool.register(key, barrier, item).wf(),
{
    if pool.holds_reservation(key, barrier) {
        let grown = pool.with_item(key, item);
        lemma_promoted(pool.recency, key);
        assert(grown.wf());
        if grown.must_evict() {
            lemma_drop_first(grown.recency);
        }
    }
}

/// Withdrawing a reservation leaves the pool well formed.
pub proof fn abort_keeps_invariant(pool: PoolView, key: Seq<char>, barrier: u64)
    requires
        pool.wf(),
    ensures
        pool.abort(key, barrier).wf(),
{
    lemma_without(pool.recency, key);
}

/// Invalidating a key leaves the pool well formed.
pub proof fn remove_keeps_invariant(pool: PoolView, key: Seq<char>)
    requires
        pool.wf(),
    ensures
        pool.remove(key).wf(),
{
    lemma_without(pool.recency, key);
}

/// Completing a download leaves the pool well formed.
pub proof fn complete_keeps_invariant(pool: PoolView, key: Seq<char>, barrier: u64, actual: u64)
    requires
        pool.wf(),
    ensures
        pool.complete(key, barrier, actual).wf(),
{
}

} // verus!
