use web_terminal::liveness::{is_unreachable, MILLIS_PER_SECOND};

#[test]
fn silence_below_the_interval_keeps_the_peer() {
    assert!(!is_unreachable(0, 0, 30));
    assert!(!is_unreachable(0, 29_999, 30));
    assert!(!is_unreachable(5_000, 34_999, 30));
}

#[test]
fn silence_of_exactly_the_interval_loses_the_peer() {
    assert!(is_unreachable(0, 30_000, 30));
    assert!(is_unreachable(5_000, 35_000, 30));
    assert!(is_unreachable(0, 30_001, 30));
    assert!(is_unreachable(7, 1_007, 1));
    assert!(!is_unreachable(7, 1_006, 1));
}

#[test]
fn interval_of_zero_loses_the_peer_at_once() {
    assert!(is_unreachable(0, 0, 0));
    assert!(is_unreachable(1_000, 1_000, 0));
    assert!(is_unreachable(1_000, 999, 0));
}

#[test]
fn clock_reading_before_the_last_sign_of_life_counts_as_no_silence() {
    assert!(!is_unreachable(10_000, 9_000, 1));
    assert!(!is_unreachable(u64::MAX, 0, 1));
}

#[test]
fn interval_beyond_the_clock_is_never_reached() {
    assert!(!is_unreachable(0, u64::MAX, u64::MAX));
    assert!(!is_unreachable(0, u64::MAX, u64::MAX / MILLIS_PER_SECOND + 1));
    assert!(is_unreachable(0, u64::MAX, u64::MAX / MILLIS_PER_SECOND));
}
