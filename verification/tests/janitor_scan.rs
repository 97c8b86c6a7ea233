use transcoder::janitor::{select_stale, FileEntry};

fn entry(path: &[u8], modified_millis: u64) -> FileEntry {
    FileEntry { path: path.to_vec(), modified_millis }
}

#[test]
fn ttl_scenario_keeps_young_deletes_old() {
    // TTL 1000 ms; at time 2000, file A is 500 ms old, file B is 1500 ms old.
    let entries = vec![entry(b"/assets/a.mp4", 1500), entry(b"/assets/b.mp4", 500)];
    let deleted = select_stale(&entries, 2000, 1000);
    assert_eq!(deleted, vec![b"/assets/b.mp4".to_vec()]);
}

#[test]
fn age_equal_to_ttl_is_kept() {
    let entries = vec![entry(b"/assets/exact.mp4", 1000)];
    assert!(select_stale(&entries, 2000, 1000).is_empty());
}

#[test]
fn age_just_over_ttl_is_deleted() {
    let entries = vec![entry(b"/assets/over.mp4", 999)];
    assert_eq!(select_stale(&entries, 2000, 1000), vec![b"/assets/over.mp4".to_vec()]);
}

#[test]
fn future_modification_time_is_fresh() {
    let entries = vec![entry(b"/assets/clock-skew.mp4", 5000)];
    assert!(select_stale(&entries, 2000, 1000).is_empty());
}

#[test]
fn empty_scan_selects_nothing() {
    assert!(select_stale(&Vec::new(), 2000, 1000).is_empty());
}

#[test]
fn scan_order_is_kept() {
    let entries = vec![
        entry(b"/assets/one", 0),
        entry(b"/assets/two", 1800),
        entry(b"/assets/three", 10),
        entry(b"/assets/four", 20),
    ];
    let deleted = select_stale(&entries, 2000, 1000);
    assert_eq!(
        deleted,
        vec![b"/assets/one".to_vec(), b"/assets/three".to_vec(), b"/assets/four".to_vec()]
    );
}

#[test]
fn zero_ttl_deletes_everything_with_positive_age() {
    let entries = vec![entry(b"/assets/a", 1999), entry(b"/assets/b", 2000)];
    let deleted = select_stale(&entries, 2000, 0);
    assert_eq!(deleted, vec![b"/assets/a".to_vec()]);
}
