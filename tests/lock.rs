use claudio::lock::{SummaryLockStore, SUMMARY_LOCK_TTL_SECS};

#[test]
fn lock_lifecycle_with_ttl() {
    let mut store = SummaryLockStore::new();
    let t0: i64 = 1_700_000_000;
    assert!(store.acquire("alice", "A", t0));
    assert!(!store.acquire("alice", "B", t0));
    assert!(store.acquire("alice", "C", t0 + SUMMARY_LOCK_TTL_SECS + 1));
    assert!(!store.release("alice", "A"));
    assert!(store.release("alice", "C"));
    assert_eq!(store.holder("alice"), None);
}

#[test]
fn lock_at_exactly_ttl_is_still_live() {
    let mut store = SummaryLockStore::with_ttl(300);
    assert!(store.acquire("bob", "A", 1000));
    assert!(!store.acquire("bob", "B", 1300));
    assert_eq!(store.holder("bob"), Some(("A".to_string(), 1000)));
    assert!(store.acquire("bob", "B", 1301));
    assert_eq!(store.holder("bob"), Some(("B".to_string(), 1301)));
}

#[test]
fn locks_of_different_users_are_independent() {
    let mut store = SummaryLockStore::new();
    assert!(store.acquire("alice", "A", 10));
    assert!(store.acquire("bob", "A", 10));
    assert!(!store.release("carol", "A"));
    assert!(store.release("bob", "A"));
    assert!(!store.acquire("alice", "Z", 20));
}
