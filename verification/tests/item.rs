use anni::item::{AudioInfo, CacheItem};

fn audio(size: u64) -> AudioInfo {
    AudioInfo::new("flac".to_string(), 215, size)
}

#[test]
fn new_item_takes_its_fields_from_the_info() {
    let item = CacheItem::new("/cache/k".to_string(), audio(1024), false);
    assert_eq!(item.path(), "/cache/k");
    assert_eq!(item.size(), 1024);
    assert!(!item.completed());
    assert_eq!(item.info(), AudioInfo { extension: "flac".to_string(), duration: 215, size: 1024 });
}

#[test]
fn new_item_can_start_complete() {
    let item = CacheItem::new("/cache/k".to_string(), audio(7), true);
    assert!(item.completed());
    assert!(!item.discard_on_release());
}

#[test]
fn setters_change_one_field_each() {
    let mut item = CacheItem::new("/cache/k".to_string(), audio(1024), false);
    item.set_size(2048);
    assert_eq!(item.size(), 2048);
    assert!(!item.completed());
    item.set_completed(true);
    assert!(item.completed());
    assert_eq!(item.size(), 2048);
    assert_eq!(item.path(), "/cache/k");
    assert_eq!(item.info().extension, "flac");
    assert_eq!(item.info().duration, 215);
    item.set_completed(false);
    assert!(!item.completed());
}

#[test]
fn info_follows_the_size() {
    let mut item = CacheItem::new("/cache/k".to_string(), audio(1024), false);
    item.set_size(999);
    assert_eq!(item.info().size, 999);
}

#[test]
fn finish_corrects_a_wrong_size() {
    let mut item = CacheItem::new("/cache/k".to_string(), audio(1024), false);
    item.finish(1000);
    assert_eq!(item.size(), 1000);
    assert!(item.completed());
}

#[test]
fn finish_keeps_a_right_size() {
    let mut item = CacheItem::new("/cache/k".to_string(), audio(1024), false);
    item.finish(1024);
    assert_eq!(item.size(), 1024);
    assert!(item.completed());
}

#[test]
fn incomplete_item_is_discarded_on_release() {
    let mut item = CacheItem::new("/cache/k".to_string(), audio(1024), false);
    assert!(item.discard_on_release());
    item.finish(1024);
    assert!(!item.discard_on_release());
    item.set_completed(false);
    assert!(item.discard_on_release());
}

#[test]
fn duplicate_is_equal() {
    let item = CacheItem::new("/cache/k".to_string(), audio(1024), false);
    assert_eq!(item.duplicate(), item);
    let info = audio(5);
    assert_eq!(info.duplicate(), info);
}
