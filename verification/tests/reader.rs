use anni::item::{AudioInfo, CacheItem};
use anni::range::Range;
use anni::reader::{plan_reader, CacheItemReader, ReadStep, ReaderPlan, POLL_DELAY_MILLIS};

#[test]
fn poll_delay_is_a_tenth_of_a_second() {
    assert_eq!(POLL_DELAY_MILLIS, 100);
}

#[test]
fn new_reader_has_delivered_nothing() {
    let reader = CacheItemReader::new();
    assert_eq!(reader.filled(), 0);
    assert!(!reader.is_waiting());
}

#[test]
fn bytes_that_came_are_delivered() {
    let mut reader = CacheItemReader::new();
    assert_eq!(reader.on_read(256, false, 4096), ReadStep::Deliver { count: 256 });
    assert_eq!(reader.filled(), 256);
    assert_eq!(reader.on_read(100, true, 4096), ReadStep::Deliver { count: 100 });
    assert_eq!(reader.filled(), 356);
    assert!(!reader.is_waiting());
}

#[test]
fn empty_read_of_a_growing_file_waits() {
    let mut reader = CacheItemReader::new();
    reader.on_read(256, false, 4096);
    assert_eq!(reader.on_read(0, false, 4096), ReadStep::Wait { millis: 100 });
    assert!(reader.is_waiting());
    assert_eq!(reader.filled(), 256);
    reader.delay_elapsed();
    assert!(!reader.is_waiting());
    assert_eq!(reader.filled(), 256);
}

#[test]
fn empty_read_at_the_size_of_a_complete_item_ends_the_stream() {
    let mut reader = CacheItemReader::new();
    reader.on_read(1024, true, 1024);
    assert_eq!(reader.on_read(0, true, 1024), ReadStep::End);
    assert_eq!(reader.filled(), 1024);
    assert!(!reader.is_waiting());
}

#[test]
fn empty_read_short_of_the_size_of_a_complete_item_is_repeated() {
    let mut reader = CacheItemReader::new();
    reader.on_read(1000, false, 1024);
    assert_eq!(reader.on_read(0, true, 1024), ReadStep::Retry);
    assert!(!reader.is_waiting());
    assert_eq!(reader.on_read(24, true, 1024), ReadStep::Deliver { count: 24 });
    assert_eq!(reader.on_read(0, true, 1024), ReadStep::End);
}

#[test]
fn empty_object_ends_at_once() {
    let mut reader = CacheItemReader::new();
    assert_eq!(reader.on_read(0, true, 0), ReadStep::End);
}

#[test]
fn empty_read_of_an_incomplete_item_never_ends_the_stream() {
    let mut reader = CacheItemReader::new();
    reader.on_read(1024, false, 1024);
    assert_eq!(reader.on_read(0, false, 1024), ReadStep::Wait { millis: 100 });
}

#[test]
fn tail_following_delivers_as_the_bytes_arrive() {
    // 4 KB arrive in chunks of 256 bytes; between two chunks the reader finds nothing
    let mut reader = CacheItemReader::new();
    let mut delivered = 0u64;
    let mut waits = 0;
    for chunk in 0..16 {
        assert_eq!(reader.on_read(256, false, 4096), ReadStep::Deliver { count: 256 });
        delivered += 256;
        if chunk < 15 {
            assert_eq!(reader.on_read(0, false, 4096), ReadStep::Wait { millis: 100 });
            reader.delay_elapsed();
            waits += 1;
        }
    }
    assert_eq!(reader.on_read(0, true, 4096), ReadStep::End);
    assert_eq!(delivered, 4096);
    assert_eq!(reader.filled(), 4096);
    assert_eq!(waits, 15);
}

#[test]
fn declared_size_that_was_wrong_is_followed() {
    // the provider declared 1024 bytes, 1000 came
    let mut reader = CacheItemReader::new();
    reader.on_read(1000, false, 1024);
    assert_eq!(reader.on_read(0, false, 1024), ReadStep::Wait { millis: 100 });
    reader.delay_elapsed();
    assert_eq!(reader.on_read(0, true, 1000), ReadStep::End);
}

#[test]
fn plan_for_the_full_range_skips_nothing() {
    let item = CacheItem::new("/cache/k".to_string(), AudioInfo::new("flac".to_string(), 3, 1024), true);
    let plan = plan_reader(&item, Range::full());
    assert_eq!(
        plan,
        ReaderPlan {
            info: AudioInfo::new("flac".to_string(), 3, 1024),
            range: Range::full(),
            skip: 0,
            limit: None,
        }
    );
}

#[test]
fn plan_for_a_range_skips_to_its_start_and_stops_at_its_length() {
    let item = CacheItem::new("/cache/k".to_string(), AudioInfo::new("mp3".to_string(), 3, 1024), true);
    let plan = plan_reader(&item, Range::new(100, Some(200)));
    assert_eq!(plan.skip, 100);
    assert_eq!(plan.limit, Some(100));
    assert_eq!(plan.range, Range::new(100, Some(200)));
    assert_eq!(plan.info.extension, "mp3");
    assert_eq!(plan.info.size, 1024);
    assert_eq!(plan.info.duration, 3);
}

#[test]
fn plan_shows_the_size_at_the_time_of_the_request() {
    let mut item = CacheItem::new("/cache/k".to_string(), AudioInfo::new("flac".to_string(), 3, 1024), false);
    item.set_size(1000);
    let plan = plan_reader(&item, Range::new(10, None));
    assert_eq!(plan.info.size, 1000);
    assert_eq!(plan.skip, 10);
    assert_eq!(plan.limit, None);
}

#[test]
fn range_after_hit_covers_its_bytes() {
    let item = CacheItem::new("/cache/k".to_string(), AudioInfo::new("flac".to_string(), 3, 1024), true);
    let range = Range::new(100, Some(200));
    let plan = plan_reader(&item, range);
    let window = range.window(item.size());
    assert_eq!(window.offset, plan.skip);
    assert_eq!(Some(window.count), plan.limit);
    assert_eq!(window.count, 100);
}

#[test]
fn full_request_is_served_the_whole_stream() {
    let item = CacheItem::new("/cache/k".to_string(), AudioInfo::new("flac".to_string(), 3, 1024), true);
    let plan = plan_reader(&item, Range::full());
    let window = Range::full().window(1024);
    assert_eq!((plan.skip, plan.limit), (0, None));
    assert_eq!((window.offset, window.count), (0, 1024));
}
