//! The cache pool: registered items, recency order, single-flight reservations
//! and eviction.
//!
//! The pool decides; it performs no I/O and never waits. A request runs as
//! follows. It calls [`CachePool::begin_fetch`] with a barrier of its own. On
//! a miss the key is now reserved under that barrier: the request fetches the
//! object, creates the file at [`CachePool::file_path`], calls
//! [`CachePool::register`], releases its barrier and leaves the copying to a
//! task that ends with [`CachePool::complete`]; if the fetch or the file
//! creation fails it calls [`CachePool::abort`]. When told to wait, it waits for
//! the barrier it was given and asks again. On a hit it has the item.

use crate::item::{AudioInfo, CacheItem, ItemView};
use crate::key::{cache_key, spec_cache_key};
use crate::path::{child_path, is_child_path};
use crate::recency::{
    lru_contains, lru_entries, lru_get, lru_len, lru_peek, lru_pop, lru_pop_lru, lru_put,
    lru_unbounded,
};
use crate::state::{
    abort_keeps_invariant, begin_fetch_keeps_invariant, complete_keeps_invariant,
    lemma_sum_listing, register_keeps_invariant, remove_keeps_invariant, sum_seq, PlanView,
    PoolView, Progress, RegistrationView,
};
use crate::store::{
    dash_items, lists_keys, sizes_of, store_contains, store_get, store_insert, store_new,
    store_remove, store_sizes,
};
use dashmap::DashMap;
use lru::LruCache;
use vstd::prelude::*;

verus! {

/// What the pool tells a request to do.
#[derive(Debug, PartialEq, Eq)]
pub enum FetchPlan {
    /// The key was unknown and is now reserved for this request.
    Miss,
    /// Another request holds the key: wait for its barrier and ask again.
    Wait { barrier: u64 },
    /// The item is registered; `barrier` is the one it was registered under.
    Hit { item: CacheItem, barrier: u64 },
}

impl View for FetchPlan {
    type V = PlanView;

    open spec fn view(&self) -> PlanView {
        match self {
            FetchPlan::Miss => PlanView::Miss,
            FetchPlan::Wait { barrier } => PlanView::Wait { barrier: *barrier },
            FetchPlan::Hit { item, barrier } => PlanView::Hit { item: item@, barrier: *barrier },
        }
    }
}

/// What a registration did.
#[derive(Debug, PartialEq, Eq)]
pub enum Registration {
    /// The reservation was gone, or the key was registered already.
    Stale,
    /// The item is registered and nothing had to leave.
    Registered,
    /// The item is registered and the least recently used key has left the pool.
    /// Its item, if it had one, is handed out marked incomplete.
    Evicted { key: String, item: Option<CacheItem> },
}

impl View for Registration {
    type V = RegistrationView;

    open spec fn view(&self) -> RegistrationView {
        match self {
            Registration::Stale => RegistrationView::Stale,
            Registration::Registered => RegistrationView::Registered,
            Registration::Evicted { key, item } => RegistrationView::Evicted {
                key: key@,
                item: match item {
                    Some(found) => Some(found@),
                    None => None,
                },
            },
        }
    }
}

/// The value of an item that may be missing.
pub open spec fn item_view(item: Option<CacheItem>) -> Option<ItemView> {
    match item {
        Some(found) => Some(found@),
        None => None,
    }
}

pub struct CachePool {
    /// Root of the cache folder.
    root: String,
    /// Budget for the space used by the cache; 0 means that there is none.
    max_size: u64,
    cache: DashMap<String, CacheItem>,
    last_used: LruCache<String, u64>,
}

impl View for CachePool {
    type V = PoolView;

    closed spec fn view(&self) -> PoolView {
        PoolView {
            root: self.root@,
            max_size: self.max_size,
            items: dash_items(self.cache),
            recency: lru_entries(self.last_used),
        }
    }
}

impl CachePool {
    /// An empty pool over the directory `root`.
    pub fn new(root: &str, max_size: u64) -> (pool: CachePool)
        ensures
            pool@ == PoolView::empty(root@, max_size),
            pool@.wf(),
    {
        let pool = CachePool {
            root: root.to_owned(),
            max_size,
            cache: store_new(),
            last_used: lru_unbounded(),
        };
        assert(pool@.items =~= Map::empty());
        pool
    }

    pub fn root(&self) -> (root: &str)
        ensures
            root@ == self@.root,
    {
        self.root.as_str()
    }

    pub fn max_size(&self) -> (n: u64)
        ensures
            n == self@.max_size,
    {
        self.max_size
    }

    /// The number of keys the pool knows.
    pub fn len(&self) -> (n: usize)
        ensures
            n == self@.recency.len(),
    {
        lru_len(&self.last_used)
    }

    /// Whether the key is known, registered or reserved.
    pub fn has_cache(&self, key: &str) -> (known: bool)
        ensures
            known == self@.known(key@),
    {
        lru_contains(&self.last_used, key)
    }

    /// Whether an item is registered under the key.
    pub fn is_registered(&self, key: &str) -> (registered: bool)
        ensures
            registered == self@.registered(key@),
    {
        store_contains(&self.cache, key)
    }

    /// Whether the key is reserved under the barrier: known by it, and not
    /// registered yet.
    pub fn holds_reservation(&self, key: &str, barrier: u64) -> (held: bool)
        ensures
            held == self@.holds_reservation(key@, barrier),
    {
        let found = lru_peek(&self.last_used, key);
        let same = match found {
            Some(b) => b == barrier,
            None => false,
        };
        same && !store_contains(&self.cache, key)
    }

    /// Where the file for a key lies: the key as a file name directly below
    /// the root.
    pub fn file_path(&self, key: &str) -> (path: String)
        ensures
            is_child_path(self@.root, key@, path@),
    {
        child_path(self.root.as_str(), key)
    }

    /// The sum of the sizes of the registered items.
    pub fn space_used(&self) -> (total: u128)
        requires
            self@.wf(),
        ensures
            total == self@.total_size(),
    {
        let sizes = store_sizes(&self.cache);
        let mut total: u128 = 0;
        let mut i: usize = 0;
        while i < sizes.len()
            invariant
                i <= sizes.len(),
                total == sum_seq(sizes@.take(i as int)),
                total <= i * u64::MAX,
            decreases sizes.len() - i,
        {
            assert(sizes@.take(i + 1).drop_last() =~= sizes@.take(i as int));
            assert((i + 1) * u64::MAX <= u128::MAX) by (nonlinear_arith)
                requires
                    i + 1 <= 0x1_0000_0000_0000_0000,
            ;
            assert((i + 1) * u64::MAX == i * u64::MAX + u64::MAX) by (nonlinear_arith);
            total = total + sizes[i] as u128;
            i = i + 1;
        }
        proof {
            let items = self@.items;
            let keys = choose|keys: Seq<Seq<char>>| #[trigger]
                lists_keys(keys, items) && sizes@ == sizes_of(keys, items);
            lemma_sum_listing(items, keys);
            assert(sizes@.take(sizes.len() as int) =~= sizes@);
        }
        total
    }

    /// Whether the pool has a budget and is over it.
    pub fn over_budget(&self) -> (over: bool)
        requires
            self@.wf(),
        ensures
            over == self@.over_budget(),
    {
        self.max_size != 0 && self.space_used() > self.max_size as u128
    }

    /// Takes up a request for `key`. An unknown key is reserved under `barrier`
    /// and the request is told that it missed; a key that another request has
    /// reserved gives that request's barrier to wait for; a registered key
    /// becomes the most recently used one and its item is handed out.
    pub fn begin_fetch(&mut self, key: &str, barrier: u64) -> (plan: FetchPlan)
        requires
            old(self)@.wf(),
            old(self)@.recency.len() < usize::MAX,
        ensures
            final(self)@.wf(),
            final(self)@ == old(self)@.begin_fetch(key@, barrier),
            plan@ == old(self)@.plan(key@),
    {
        proof {
            begin_fetch_keeps_invariant(self@, key@, barrier);
        }
        if !self.has_cache(key) {
            lru_put(&mut self.last_used, key.to_owned(), barrier);
            FetchPlan::Miss
        } else {
            match store_get(&self.cache, key) {
                None => {
                    let held = lru_peek(&self.last_used, key);
                    FetchPlan::Wait { barrier: held.unwrap() }
                },
                Some(item) => {
                    let held = lru_get(&mut self.last_used, key);
                    FetchPlan::Hit { item, barrier: held.unwrap() }
                },
            }
        }
    }

    /// Registers the item of a download that has begun to arrive, incomplete and
    /// as the most recently used one, provided that `key` is still reserved
    /// under `barrier`. If the pool is then over its budget and knows another
    /// key, the least recently used key leaves the pool.
    pub fn register(&mut self, key: &str, barrier: u64, path: String, info: AudioInfo) -> (done:
        Registration)
        requires
            old(self)@.wf(),
        ensures
            final(self)@.wf(),
            final(self)@ == old(self)@.register(
                key@,
                barrier,
                ItemView::fresh(path@, info@, false),
            ),
            done@ == old(self)@.registration(key@, barrier, ItemView::fresh(path@, info@, false)),
    {
        let ghost fresh = ItemView::fresh(path@, info@, false);
        proof {
            register_keeps_invariant(self@, key@, barrier, fresh);
        }
        if !self.holds_reservation(key, barrier) {
            return Registration::Stale;
        }
        let item = CacheItem::new(path, info, false);
        store_insert(&mut self.cache, key.to_owned(), item);
        lru_get(&mut self.last_used, key);
        assert(self@ == old(self)@.with_item(key@, fresh));
        if self.over_budget() && lru_len(&self.last_used) >= 2 {
            let oldest = lru_pop_lru(&mut self.last_used);
            let (victim, _) = oldest.unwrap();
            let removed = store_remove(&mut self.cache, victim.as_str());
            let item = match removed {
                Some(mut found) => {
                    found.set_completed(false);
                    Some(found)
                },
                None => None,
            };
            Registration::Evicted { key: victim, item }
        } else {
            Registration::Registered
        }
    }

    /// Withdraws the reservation of `key` under `barrier` after a fetch or a
    /// file creation has failed. Says whether there was such a reservation.
    pub fn abort(&mut self, key: &str, barrier: u64) -> (withdrawn: bool)
        requires
            old(self)@.wf(),
        ensures
            final(self)@.wf(),
            final(self)@ == old(self)@.abort(key@, barrier),
            withdrawn == old(self)@.holds_reservation(key@, barrier),
    {
        proof {
            abort_keeps_invariant(self@, key@, barrier);
        }
        if self.holds_reservation(key, barrier) {
            lru_pop(&mut self.last_used, key);
            true
        } else {
            false
        }
    }

    /// Invalidates a key: the pool forgets it, and its item, if it had one, is
    /// handed out marked incomplete. An unknown key changes nothing.
    pub fn remove(&mut self, key: &str) -> (removed: Option<CacheItem>)
        requires
            old(self)@.wf(),
        ensures
            final(self)@.wf(),
            final(self)@ == old(self)@.remove(key@),
            item_view(removed) == old(self)@.removed(key@),
    {
        proof {
            remove_keeps_invariant(self@, key@);
        }
        let removed = store_remove(&mut self.cache, key);
        lru_pop(&mut self.last_used, key);
        match removed {
            Some(mut found) => {
                found.set_completed(false);
                Some(found)
            },
            None => None,
        }
    }

    /// Invalidates the track `album_id/disc_id/track_id`.
    pub fn invalidate(&mut self, album_id: &str, disc_id: u8, track_id: u8) -> (removed: Option<
        CacheItem,
    >)
        requires
            old(self)@.wf(),
        ensures
            final(self)@.wf(),
            final(self)@ == old(self)@.remove(spec_cache_key(album_id@, disc_id, track_id)),
            item_view(removed) == old(self)@.removed(spec_cache_key(album_id@, disc_id, track_id)),
    {
        let key = cache_key(album_id, disc_id, track_id);
        self.remove(key.as_str())
    }

    /// The item registered under `key` while the key is known by `barrier`.
    pub fn status(&self, key: &str, barrier: u64) -> (item: Option<CacheItem>)
        ensures
            item_view(item) == self@.status(key@, barrier),
    {
        let held = lru_peek(&self.last_used, key);
        let same = match held {
            Some(b) => b == barrier,
            None => false,
        };
        if same {
            store_get(&self.cache, key)
        } else {
            None
        }
    }

    /// What a reader of the download `key`, `barrier` has to know of its item.
    pub fn progress(&self, key: &str, barrier: u64) -> (progress: Progress)
        ensures
            progress == self@.progress(key@, barrier),
    {
        match self.status(key, barrier) {
            Some(item) => Progress { completed: item.completed(), size: item.size() },
            None => Progress { completed: false, size: 0 },
        }
    }

    /// Records that the copier has written all `actual` bytes of the object
    /// registered under `key` and `barrier`: the item gets its real size and
    /// becomes complete. Says whether there was such an item to complete.
    pub fn complete(&mut self, key: &str, barrier: u64, actual: u64) -> (completed: bool)
        requires
            old(self)@.wf(),
        ensures
            final(self)@.wf(),
            final(self)@ == old(self)@.complete(key@, barrier, actual),
            completed == old(self)@.completable(key@, barrier),
    {
        proof {
            complete_keeps_invariant(self@, key@, barrier, actual);
        }
        match self.status(key, barrier) {
            Some(mut item) => {
                if item.completed() {
                    false
                } else {
                    item.finish(actual);
                    store_insert(&mut self.cache, key.to_owned(), item);
                    true
                }
            },
            None => false,
        }
    }

    /// Whether the file of the download `key`, `barrier` has to be deleted when
    /// its last user lets go of it.
    pub fn discard_on_release(&self, key: &str, barrier: u64) -> (discard: bool)
        ensures
            discard == self@.discard_on_release(key@, barrier),
    {
        match self.status(key, barrier) {
            Some(item) => item.discard_on_release(),
            None => true,
        }
    }
}

} // verus!
