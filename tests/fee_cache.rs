use pseudo_bundler::{BaseFeeCache, BaseFeeReading};

#[test]
fn empty_cache_has_nothing_fresh() {
    let cache = BaseFeeCache::new(12);
    assert_eq!(cache.fresh(0), None);
}

#[test]
fn fetched_fee_is_fresh_until_ttl() {
    let mut cache = BaseFeeCache::new(12);
    assert_eq!(cache.record(Some(20), 100), Some(BaseFeeReading { base_fee: 20, stale: false }));
    assert_eq!(cache.fresh(100), Some(20));
    assert_eq!(cache.fresh(111), Some(20));
    assert_eq!(cache.fresh(112), None);
    assert_eq!(cache.fresh(99), None);
}

#[test]
fn failed_fetch_falls_back_to_stale_value() {
    let mut cache = BaseFeeCache::new(12);
    cache.record(Some(20), 100);
    assert_eq!(cache.record(None, 200), Some(BaseFeeReading { base_fee: 20, stale: true }));
    assert_eq!(cache.last, Some(20));
    assert_eq!(cache.fetched_at, 100);
}

#[test]
fn failed_first_fetch_has_no_value() {
    let mut cache = BaseFeeCache::new(12);
    assert_eq!(cache.record(None, 5), None);
    assert_eq!(cache.last, None);
}
