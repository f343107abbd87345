use mint_api::cache::ExpiringCache;

#[test]
fn test_expiring_cache() {
    let mut cache: ExpiringCache<u64> = ExpiringCache::new(1_000);
    let mut counter: u64 = 0;
    let result = cache.get(0, || {
        counter += 1;
        counter
    });
    assert_eq!(result, 1);
    let result = cache.get(500, || {
        counter += 1;
        counter
    });
    assert_eq!(result, 1);
    // two seconds later the window has expired and the producer runs
    // again
    let result = cache.get(2_000, || {
        counter += 1;
        counter
    });
    assert_eq!(result, 2);
}

#[test]
fn test_expiring_cache_refresh_and_read() {
    let mut cache: ExpiringCache<u64> = ExpiringCache::new(100);
    assert!(cache.get_if_fresh(0).is_none());
    cache.refresh(42, 10);
    assert_eq!(cache.get_if_fresh(50), Some(&42));
    // exactly at the window edge the value is stale
    assert!(cache.get_if_fresh(110).is_none());
}

#[test]
fn test_expiring_cache_does_not_cache_failures() {
    let mut cache: ExpiringCache<u64> = ExpiringCache::new(1_000);
    let mut calls: u64 = 0;
    // the failure propagates and is not stored
    let result: Result<u64, &str> = cache.get_try(0, || {
        calls += 1;
        Err("producer failed")
    });
    assert_eq!(result, Err("producer failed"));
    assert!(cache.get_if_fresh(0).is_none());
    // the very next read within any window runs the producer again
    let result: Result<u64, &str> = cache.get_try(1, || {
        calls += 1;
        Ok(5)
    });
    assert_eq!(result, Ok(5));
    assert_eq!(calls, 2);
    // the produced value is now served from the cache
    let result: Result<u64, &str> = cache.get_try(500, || {
        calls += 1;
        Ok(6)
    });
    assert_eq!(result, Ok(5));
    assert_eq!(calls, 2);
}
