use secrpc::pool::MrPool;

#[test]
fn acquire_scans_in_order() {
    let mut pool = MrPool::new(4);
    assert_eq!(pool.acquire(10), Some(0));
    assert_eq!(pool.acquire(11), Some(1));
    assert_eq!(pool.acquire(12), Some(2));
}

#[test]
fn exclusivity_one_wrid_per_region() {
    let mut pool = MrPool::new(2);
    assert_eq!(pool.acquire(1), Some(0));
    assert_eq!(pool.acquire(2), Some(1));
    // Both regions occupied: a third id finds no region.
    assert_eq!(pool.acquire(3), None);
    // Each id still holds its own region.
    assert_eq!(pool.region_of(1), Some(0));
    assert_eq!(pool.region_of(2), Some(1));
    assert_eq!(pool.region_of(3), None);
}

#[test]
fn release_frees_the_region() {
    let mut pool = MrPool::new(2);
    pool.acquire(1);
    pool.acquire(2);
    pool.release(1);
    assert_eq!(pool.region_of(1), None);
    // The freed region is handed out again, first in scan order.
    assert_eq!(pool.acquire(3), Some(0));
}

#[test]
fn release_is_idempotent_for_unknown_ids() {
    let mut pool = MrPool::new(2);
    pool.acquire(1);
    pool.release(99);
    pool.release(99);
    assert_eq!(pool.region_of(1), Some(0));
}

#[test]
fn conservation_after_acquires_and_matched_releases() {
    let mut pool = MrPool::new(3);
    for wrid in 0u64..30u64 {
        let got = pool.acquire(wrid).expect("a vacant region exists");
        assert!(got < 3);
        pool.release(wrid);
    }
    // Nothing leaked: all three regions are vacant again.
    assert_eq!(pool.acquire(100), Some(0));
    assert_eq!(pool.acquire(101), Some(1));
    assert_eq!(pool.acquire(102), Some(2));
}

#[test]
fn zero_capacity_pool_is_always_exhausted() {
    let mut pool = MrPool::new(0);
    assert_eq!(pool.acquire(1), None);
    assert_eq!(pool.capacity(), 0);
}
