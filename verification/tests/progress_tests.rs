use file_transfer::progress::ProgressTracker;

#[test]
fn progress_is_monotone_and_bounded() {
    let mut t = ProgressTracker::new(100);
    assert_eq!(t.advance_to(10), 10);
    // A stale, smaller report never moves the reading backwards.
    assert_eq!(t.advance_to(5), 10);
    assert_eq!(t.advance_to(99), 99);
    // An overshooting report is clamped to the total.
    assert_eq!(t.advance_to(200), 100);
    assert_eq!(t.advance_to(0), 100);
}

#[test]
fn finishing_keeps_the_reading() {
    let mut t = ProgressTracker::new(10);
    t.advance_to(10);
    t.finish();
    assert_eq!(t.advance_to(0), 10);
}

#[test]
fn zero_total_is_tolerated() {
    let mut t = ProgressTracker::new(0);
    assert_eq!(t.advance_to(1), 0);
}
