use anni::cache::Cache;
use anni::item::{AudioInfo, CacheItem};
use anni::key::cache_key;
use anni::pool::{CachePool, FetchPlan, Registration};
use anni::range::Range;

#[test]
fn audio_request_goes_through_the_pool_under_the_key_of_the_track() {
    let mut cache = Cache::new(CachePool::new("/cache", 0));
    let fetch = cache.begin_audio("A", 1, 1, 7);
    assert_eq!(fetch.key, cache_key("A", 1, 1));
    assert_eq!(fetch.key, "3e13cf05ab5e6ffd38f4d2577bb2efa8e22c567645f35fbb2692086e58d2d3ed");
    assert_eq!(fetch.plan, FetchPlan::Miss);
    assert!(cache.pool.has_cache(&fetch.key));
}

#[test]
fn provider_is_asked_for_the_whole_object() {
    let mut cache = Cache::new(CachePool::new("/cache", 0));
    let fetch = cache.begin_audio("A", 1, 1, 7);
    assert_eq!(fetch.upstream, Range::full());
    assert_eq!(fetch.upstream, Range { start: 0, end: None });
}

#[test]
fn second_audio_request_is_a_hit() {
    let mut cache = Cache::new(CachePool::new("/cache", 0));
    let first = cache.begin_audio("A", 1, 1, 7);
    let info = AudioInfo::new("flac".to_string(), 10, 1024);
    let done = cache.pool.register(&first.key, 7, "/cache/a".to_string(), info.clone());
    assert_eq!(done, Registration::Registered);
    cache.pool.complete(&first.key, 7, 1024);
    let second = cache.begin_audio("A", 1, 1, 8);
    assert_eq!(
        second.plan,
        FetchPlan::Hit { item: CacheItem::new("/cache/a".to_string(), info, true), barrier: 7 }
    );
    let other = cache.begin_audio("A", 1, 2, 9);
    assert_eq!(other.plan, FetchPlan::Miss);
}

#[test]
fn cache_invalidates_by_track() {
    let mut cache = Cache::new(CachePool::new("/cache", 0));
    let fetch = cache.begin_audio("A", 1, 1, 7);
    cache.pool.register(&fetch.key, 7, "/cache/a".to_string(), AudioInfo::new("flac".to_string(), 10, 5));
    cache.pool.complete(&fetch.key, 7, 5);
    assert_eq!(cache.invalidate("A", 1, 2), None);
    let removed = cache.invalidate("A", 1, 1).unwrap();
    assert!(!removed.completed());
    assert_eq!(removed.size(), 5);
    assert!(!cache.pool.has_cache(&fetch.key));
    assert_eq!(cache.invalidate("A", 1, 1), None);
}
