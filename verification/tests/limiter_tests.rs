use rate_limiter::key::window_key;
use rate_limiter::limiter::RateLimiterStore;
use rate_limiter::memory::MemoryStore;
use rate_limiter::status::{StoreUnavailable, evaluate};
use rate_limiter::store::CounterStore;
use rate_limiter::window::window_start;

// 1 000 000 epoch seconds: window start 950 400, so 36 800 s remain.
const NOW: u64 = 1_000_000;
const TTL: u64 = 36_800;

#[test]
fn quota_of_two_over_three_calls() {
    let mut rl = RateLimiterStore::new(MemoryStore::new(), 2);

    let s1 = rl.check_at("alice", false, NOW).unwrap();
    assert!(s1.is_allowed);
    assert_eq!(s1.remaining, 1);
    assert_eq!(s1.limit, 2);
    assert_eq!(s1.retry_after, None);
    assert_eq!(s1.reset_after, TTL);

    let s2 = rl.check_at("alice", false, NOW).unwrap();
    assert!(s2.is_allowed);
    assert_eq!(s2.remaining, 0);

    let s3 = rl.check_at("alice", false, NOW).unwrap();
    assert!(!s3.is_allowed);
    assert_eq!(s3.retry_after, Some(TTL));
    assert_eq!(s3.remaining, 0);
    assert_eq!(s3.reset_after, TTL);
}

#[test]
fn extended_tier_allows_fifty_of_base_five() {
    let mut rl = RateLimiterStore::new(MemoryStore::new(), 5);
    for k in 1u32..=50 {
        let st = rl.check_at("bob", true, NOW).unwrap();
        assert!(st.is_allowed, "call {k} should be allowed");
        assert_eq!(st.limit, 50);
        assert_eq!(st.remaining, 50 - k);
    }
    let st = rl.check_at("bob", true, NOW).unwrap();
    assert!(!st.is_allowed);
    assert_eq!(st.retry_after, Some(TTL));
}

#[test]
fn store_failure_surfaces_not_a_decision() {
    let mut store = MemoryStore::new();
    store.set_available(false);
    let mut rl = RateLimiterStore::new(store, 2);
    assert_eq!(rl.check_at("dave", false, NOW), Err(StoreUnavailable));
}

#[test]
fn failed_check_does_not_consume_quota() {
    let mut rl = RateLimiterStore::new(MemoryStore::new(), 3);
    rl.check_at("frank", false, NOW).unwrap();
    rl.store.set_available(false);
    assert_eq!(rl.check_at("frank", false, NOW), Err(StoreUnavailable));
    rl.store.set_available(true);
    let st = rl.check_at("frank", false, NOW).unwrap();
    assert_eq!(st.remaining, 1);
}

#[test]
fn tiers_share_one_counter() {
    let mut rl = RateLimiterStore::new(MemoryStore::new(), 2);
    let s1 = rl.check_at("erin", false, NOW).unwrap();
    assert_eq!((s1.limit, s1.remaining), (2, 1));
    let s2 = rl.check_at("erin", true, NOW).unwrap();
    assert_eq!((s2.limit, s2.remaining), (20, 18));
    let s3 = rl.check_at("erin", false, NOW).unwrap();
    assert!(!s3.is_allowed);
    assert_eq!(rl.store.count(&window_key("erin", window_start(NOW))), 3);
}

#[test]
fn expiry_armed_once_never_rearmed() {
    let mut rl = RateLimiterStore::new(MemoryStore::new(), 5);
    let start = window_start(NOW);
    let key = window_key("carol", start);

    rl.check_at("carol", false, start).unwrap();
    assert_eq!(rl.store.armed_ttl(&key), Some(86400));

    for i in 1u64..5 {
        rl.check_at("carol", false, start + 1000 * i).unwrap();
        assert_eq!(rl.store.armed_ttl(&key), Some(86400));
    }
    assert_eq!(rl.store.count(&key), 5);
}

#[test]
fn new_window_starts_fresh() {
    let mut rl = RateLimiterStore::new(MemoryStore::new(), 1);
    let start = window_start(NOW);
    assert!(rl.check_at("gail", false, NOW).unwrap().is_allowed);
    assert!(!rl.check_at("gail", false, NOW).unwrap().is_allowed);
    let st = rl.check_at("gail", false, start + 86400).unwrap();
    assert!(st.is_allowed);
    assert_eq!(st.reset_after, 86400);
}

#[test]
fn zero_limit_denies_everything() {
    let mut rl = RateLimiterStore::new(MemoryStore::new(), 0);
    let st = rl.check_at("henry", false, NOW).unwrap();
    assert!(!st.is_allowed);
    assert_eq!(st.limit, 0);
    assert_eq!(st.remaining, 0);
}

#[test]
fn boundary_usage_is_still_allowed() {
    let allowed = evaluate(5, 100, 5);
    assert!(allowed.is_allowed);
    assert_eq!(allowed.remaining, 0);
    assert_eq!(allowed.retry_after, None);

    let denied = evaluate(5, 100, 6);
    assert!(!denied.is_allowed);
    assert_eq!(denied.retry_after, Some(100));
}

#[test]
fn wall_clock_check_reports_sane_window() {
    let mut rl = RateLimiterStore::new(MemoryStore::new(), 1000);
    let st = rl.check("grace", false).unwrap();
    assert!(st.is_allowed);
    assert_eq!(st.limit, 1000);
    assert_eq!(st.remaining, 999);
    assert!((1..=86400).contains(&st.reset_after));
}

#[test]
fn memory_store_primitive_operations() {
    let mut store = MemoryStore::new();
    assert_eq!(store.increment("k"), Ok(1));
    assert_eq!(store.increment("k"), Ok(2));
    assert_eq!(store.count("k"), 2);
    assert_eq!(store.count("absent"), 0);
    assert_eq!(store.armed_ttl("k"), None);
    assert_eq!(store.set_expiry("k", 500), Ok(()));
    assert_eq!(store.armed_ttl("k"), Some(500));
    assert_eq!(store.set_expiry("absent", 10), Ok(()));
    assert_eq!(store.armed_ttl("absent"), None);
    assert_eq!(store.ping(), Ok(()));
    store.set_available(false);
    assert_eq!(store.ping(), Err(StoreUnavailable));
    assert_eq!(store.increment("k"), Err(StoreUnavailable));
}
