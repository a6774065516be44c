use definition_downloader::retry::should_retry;

#[test]
fn retry_allowed_while_attempt_within_bound() {
    assert!(should_retry(0, 0));
    assert!(should_retry(1, 1));
    assert!(should_retry(1, 2));
    assert!(should_retry(2, 2));
    assert!(should_retry(100, 100));
}

#[test]
fn retry_refused_once_attempt_beyond_bound() {
    assert!(!should_retry(1, 0));
    assert!(!should_retry(3, 2));
    assert!(!should_retry(101, 100));
    assert!(!should_retry(u32::MAX, i32::MAX));
}

#[test]
fn negative_bound_never_gives_up() {
    assert!(should_retry(0, -1));
    assert!(should_retry(1, -1));
    assert!(should_retry(1000, -5));
    assert!(should_retry(u32::MAX, i32::MIN));
}
