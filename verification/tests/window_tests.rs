use rate_limiter::window::{WINDOW_SECS, window_start, window_ttl};

#[test]
fn window_start_aligns_to_day() {
    assert_eq!(window_start(0), 0);
    assert_eq!(window_start(86399), 0);
    assert_eq!(window_start(86400), 86400);
    assert_eq!(window_start(1_000_000), 950_400);
}

#[test]
fn window_ttl_exact_values() {
    assert_eq!(window_ttl(0), 86400);
    assert_eq!(window_ttl(86399), 1);
    assert_eq!(window_ttl(86400), 86400);
    assert_eq!(window_ttl(1_000_000), 36_800);
}

#[test]
fn reset_after_monotone_within_window() {
    let mut prev = window_ttl(950_400);
    for now in [950_401u64, 980_000, 1_020_123, 1_036_799] {
        let t = window_ttl(now);
        assert!(t <= prev);
        prev = t;
    }
}

#[test]
fn reset_full_at_new_window() {
    assert_eq!(window_ttl(86400 * 20000), WINDOW_SECS);
}

#[test]
fn largest_instant_still_in_a_window() {
    let n = u64::MAX;
    let s = window_start(n);
    assert!(s <= n && n - s < WINDOW_SECS);
    let t = window_ttl(n);
    assert!((1..=WINDOW_SECS).contains(&t));
}
