use reddit_nobility::lease::{LeaseTable, LEASE_TTL_MILLIS};

#[test]
fn second_acquire_fails_until_release() {
    let mut t = LeaseTable::new();
    assert!(t.try_acquire(1, 100));
    assert!(!t.try_acquire(1, 200));
    assert_eq!(t.leased_at(1), Some(100));
    t.release(1);
    assert!(t.try_acquire(1, 300));
    assert_eq!(t.leased_at(1), Some(300));
}

#[test]
fn release_of_absent_lease_is_harmless() {
    let mut t = LeaseTable::new();
    t.release(5);
    assert!(!t.is_leased(5));
    assert!(t.try_acquire(6, 0));
    t.release(5);
    t.release(6);
    t.release(6);
    assert!(!t.is_leased(6));
}

#[test]
fn sweep_removes_only_abandoned_leases() {
    let mut t = LeaseTable::new();
    assert!(t.try_acquire(1, 0));
    assert!(t.try_acquire(2, 1));
    assert!(t.try_acquire(3, 500_000));
    t.sweep(LEASE_TTL_MILLIS + 1);
    assert!(!t.is_leased(1));
    assert!(t.is_leased(2));
    assert!(t.is_leased(3));
    assert!(t.try_acquire(1, LEASE_TTL_MILLIS + 2));
}

#[test]
fn lease_exactly_at_ttl_is_kept() {
    let mut t = LeaseTable::new();
    assert!(t.try_acquire(1, 1_000));
    t.sweep(1_000 + LEASE_TTL_MILLIS);
    assert!(t.is_leased(1));
    t.sweep(1_001 + LEASE_TTL_MILLIS);
    assert!(!t.is_leased(1));
}

#[test]
fn sweep_of_empty_table_and_extreme_times() {
    let mut t = LeaseTable::new();
    t.sweep(i64::MAX);
    assert!(t.try_acquire(1, i64::MIN));
    assert!(t.try_acquire(2, i64::MAX));
    t.sweep(i64::MAX);
    assert!(!t.is_leased(1));
    assert!(t.is_leased(2));
    t.sweep(i64::MIN);
    assert!(t.is_leased(2));
}

#[test]
fn ttl_is_five_minutes() {
    assert_eq!(LEASE_TTL_MILLIS, 5 * 60 * 1000);
}
