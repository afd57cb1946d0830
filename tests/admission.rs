use claudio::ratelimit::RateLimitState;
use claudio::types::RateLimitError;
use std::time::{Duration, Instant};

#[test]
fn quota_of_two_admits_two_then_rejects() {
    let mut state = RateLimitState::new();
    assert_eq!(state.check("tenant", 2), Ok(()));
    assert_eq!(state.check("tenant", 2), Ok(()));
    assert_eq!(state.check("tenant", 2), Err(RateLimitError::TooManyRequests));
}

#[test]
fn unlimited_quota_admits_without_caching() {
    let mut state = RateLimitState::new();
    for _ in 0..50 {
        assert_eq!(state.check("free", 0), Ok(()));
    }
    assert_eq!(state.check("free", -3), Ok(()));
    assert_eq!(state.len(), 0);
}

#[test]
fn full_cache_evicts_least_recently_used_tenant() {
    let mut state = RateLimitState::new();
    for i in 0..1000 {
        assert_eq!(state.check(&format!("t{}", i), 60), Ok(()));
    }
    assert_eq!(state.len(), 1000);
    // touch t0 so that t1 becomes the least recently used
    assert_eq!(state.check("t0", 60), Ok(()));
    assert_eq!(state.check("t1000", 60), Ok(()));
    assert_eq!(state.len(), 1000);
    assert_eq!(state.entry("t1"), None);
    assert!(state.entry("t0").is_some());
    assert!(state.entry("t2").is_some());
    assert!(state.entry("t1000").is_some());
    // the evicted tenant gets a fresh bucket on its next check
    assert_eq!(state.check("t1", 60), Ok(()));
    let (rpm, last, created) = state.entry("t1").unwrap();
    assert_eq!(rpm, 60);
    assert_eq!(last, created);
    assert_eq!(state.entry("t2"), None);
}

#[test]
fn quota_change_replaces_bucket() {
    let mut state = RateLimitState::with_capacity(4);
    assert_eq!(state.check("t", 1), Ok(()));
    assert_eq!(state.check("t", 1), Err(RateLimitError::TooManyRequests));
    let (_, _, created_before) = state.entry("t").unwrap();
    assert_eq!(state.check("t", 5), Ok(()));
    let (rpm, _, created_after) = state.entry("t").unwrap();
    assert_eq!(rpm, 5);
    assert!(created_after > created_before);
    assert_eq!(state.len(), 1);
}

#[test]
fn same_quota_touches_bucket() {
    let mut state = RateLimitState::with_capacity(4);
    assert_eq!(state.check("t", 10), Ok(()));
    assert_eq!(state.check("t", 10), Ok(()));
    let (_, last, created) = state.entry("t").unwrap();
    assert_eq!(created, 0);
    assert_eq!(last, 1);
}

#[test]
fn remove_drops_tenant_and_ignores_unknown() {
    let mut state = RateLimitState::with_capacity(2);
    assert_eq!(state.check("a", 3), Ok(()));
    state.remove("nobody");
    assert_eq!(state.len(), 1);
    state.remove("a");
    assert_eq!(state.len(), 0);
    assert_eq!(state.entry("a"), None);
}

#[test]
fn bucket_refills_over_time() {
    let mut state = RateLimitState::new();
    for _ in 0..60 {
        assert_eq!(state.check("fast", 60), Ok(()));
    }
    assert_eq!(state.check("fast", 60), Err(RateLimitError::TooManyRequests));
    let start = Instant::now();
    while start.elapsed() < Duration::from_millis(1100) {}
    assert_eq!(state.check("fast", 60), Ok(()));
}
