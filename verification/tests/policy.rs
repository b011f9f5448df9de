//! Tests of the retry/backoff policy.

use indigauge::{calculate_backoff_delay_ms, should_retry, MAX_BACKOFF_MS};

#[test]
fn test_calculate_backoff_delay() {
    // basic exponential backoff, with a one-second base delay
    assert_eq!(calculate_backoff_delay_ms(0, 1000), 1000);
    assert_eq!(calculate_backoff_delay_ms(1, 1000), 2000);
    assert_eq!(calculate_backoff_delay_ms(2, 1000), 4000);
    assert_eq!(calculate_backoff_delay_ms(3, 1000), 8000);

    // a different base delay
    assert_eq!(calculate_backoff_delay_ms(0, 500), 500);
    assert_eq!(calculate_backoff_delay_ms(1, 500), 1000);

    // capping at MAX_BACKOFF_MS
    let large_attempt_delay = calculate_backoff_delay_ms(20, 1000);
    assert!(large_attempt_delay <= MAX_BACKOFF_MS);
    assert_eq!(large_attempt_delay, MAX_BACKOFF_MS);

    // very large attempts neither panic nor overflow
    let very_large_delay = calculate_backoff_delay_ms(u32::MAX, 1000);
    assert!(very_large_delay <= MAX_BACKOFF_MS);
}

#[test]
fn test_should_retry() {
    assert!(should_retry(0, 3));
    assert!(should_retry(1, 3));
    assert!(should_retry(2, 3));
    assert!(!should_retry(3, 3));
    assert!(!should_retry(4, 3));

    // edge cases
    assert!(!should_retry(0, 0));
    assert!(should_retry(0, 1));
}

#[test]
fn backoff_is_monotonic_in_attempt() {
    let mut previous: u64 = 0;
    for attempt in 0..30u32 {
        let delay = calculate_backoff_delay_ms(attempt, 250);
        assert!(delay >= previous);
        previous = delay;
    }
}
