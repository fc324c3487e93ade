//! The cache in front of a provider: audio requests go through the pool under
//! the key of their track, and the provider is always asked for whole objects.

use crate::item::CacheItem;
use crate::key::{cache_key, spec_cache_key};
use crate::pool::{item_view, CachePool, FetchPlan};
use crate::range::Range;
use crate::state::PoolView;
use vstd::prelude::*;

verus! {

/// How an audio request is served.
#[derive(Debug)]
pub struct AudioFetch {
    /// The key of the track.
    pub key: String,
    /// What the pool said about the key.
    pub plan: FetchPlan,
    /// The range to ask the provider for, should the request have missed.
    pub upstream: Range,
}

pub struct Cache {
    pub pool: CachePool,
}

impl View for Cache {
    type V = PoolView;

    open spec fn view(&self) -> PoolView {
        self.pool@
    }
}

impl Cache {
    pub fn new(pool: CachePool) -> (cache: Cache)
        ensures
            cache.pool == pool,
    {
        Cache { pool }
    }

    /// Invalidates the track: its key leaves the pool, and its item, if it had
    /// one, is handed out marked incomplete.
    pub fn invalidate(&mut self, album_id: &str, disc_id: u8, track_id: u8) -> (removed: Option<
        CacheItem,
    >)
        requires
            old(self)@.wf(),
        ensures
            final(self)@.wf(),
            final(self)@ == old(self)@.remove(spec_cache_key(album_id@, disc_id, track_id)),
            item_view(removed) == old(self)@.removed(spec_cache_key(album_id@, disc_id, track_id)),
    {
        self.pool.invalidate(album_id, disc_id, track_id)
    }

    /// Takes up a request for the audio of a track: the pool is asked about the
    /// track's key, and a miss is to be fetched from the provider in full,
    /// whatever range the client wants.
    pub fn begin_audio(&mut self, album_id: &str, disc_id: u8, track_id: u8, barrier: u64) -> (fetch:
        AudioFetch)
        requires
            old(self)@.wf(),
            old(self)@.recency.len() < usize::MAX,
        ensures
            final(self)@.wf(),
            fetch.key@ == spec_cache_key(album_id@, disc_id, track_id),
            fetch.plan@ == old(self)@.plan(fetch.key@),
            fetch.upstream == (Range { start: 0, end: None }),
            final(self)@ == old(self)@.begin_fetch(fetch.key@, barrier),
    {
        let key = cache_key(album_id, disc_id, track_id);
        let plan = self.pool.begin_fetch(key.as_str(), barrier);
        AudioFetch { key, plan, upstream: Range::full() }
    }
}

} // verus!
