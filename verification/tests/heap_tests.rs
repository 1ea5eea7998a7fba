use wifi_reporter::heap::{HeapError, HeapStats};

#[test]
fn used_is_total_minus_free() {
    let s = HeapStats::new(320_000, 190_000, 150_000).unwrap();
    assert_eq!(s.total(), 320_000);
    assert_eq!(s.free(), 190_000);
    assert_eq!(s.min_free(), 150_000);
    assert_eq!(s.used(), 130_000);
    assert_eq!(s.used() + s.free(), s.total());
}

#[test]
fn nothing_used_when_all_free() {
    let s = HeapStats::new(4096, 4096, 4096).unwrap();
    assert_eq!(s.used(), 0);
}

#[test]
fn everything_used_when_nothing_free() {
    let s = HeapStats::new(4096, 0, 0).unwrap();
    assert_eq!(s.used(), 4096);
}

#[test]
fn rejects_free_above_total() {
    let r = HeapStats::new(100, 101, 0);
    assert_eq!(r.unwrap_err(), HeapError::FreeExceedsTotal);
}

#[test]
fn rejects_min_free_above_free() {
    let r = HeapStats::new(100, 40, 41);
    assert_eq!(r.unwrap_err(), HeapError::MinFreeExceedsFree);
}

#[test]
fn free_check_comes_before_min_free_check() {
    let r = HeapStats::new(100, 101, 102);
    assert_eq!(r.unwrap_err(), HeapError::FreeExceedsTotal);
}
