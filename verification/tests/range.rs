use anni::range::{Range, Window};

#[test]
fn full_range_has_no_length() {
    let full = Range::full();
    assert_eq!(full, Range { start: 0, end: None });
    assert!(full.is_full());
    assert!(full.is_valid());
    assert_eq!(full.length(), None);
}

#[test]
fn bounded_range_has_the_length_between_its_ends() {
    let range = Range::new(100, Some(200));
    assert!(range.is_valid());
    assert!(!range.is_full());
    assert_eq!(range.length(), Some(100));
    assert_eq!(Range::new(7, Some(7)).length(), Some(0));
    assert_eq!(Range::new(0, Some(u64::MAX)).length(), Some(u64::MAX));
}

#[test]
fn open_range_from_an_offset_is_not_full() {
    let range = Range::new(5, None);
    assert!(!range.is_full());
    assert!(range.is_valid());
    assert_eq!(range.length(), None);
}

#[test]
fn range_that_ends_before_it_starts_is_not_valid() {
    assert!(!Range::new(10, Some(9)).is_valid());
    assert!(Range::new(10, Some(10)).is_valid());
}

#[test]
fn window_of_the_full_range_is_the_object() {
    assert_eq!(Range::full().window(1024), Window { offset: 0, count: 1024 });
    assert_eq!(Range::full().window(0), Window { offset: 0, count: 0 });
}

#[test]
fn window_of_an_inner_range_is_exact() {
    assert_eq!(Range::new(100, Some(200)).window(1024), Window { offset: 100, count: 100 });
    assert_eq!(Range::new(0, Some(1024)).window(1024), Window { offset: 0, count: 1024 });
    assert_eq!(Range::new(1024, Some(1024)).window(1024), Window { offset: 1024, count: 0 });
}

#[test]
fn window_is_cut_at_the_end_of_the_object() {
    assert_eq!(Range::new(1000, Some(2000)).window(1024), Window { offset: 1000, count: 24 });
    assert_eq!(Range::new(1000, None).window(1024), Window { offset: 1000, count: 24 });
    assert_eq!(Range::new(2000, Some(3000)).window(1024), Window { offset: 1024, count: 0 });
    assert_eq!(Range::new(2000, None).window(1024), Window { offset: 1024, count: 0 });
}
