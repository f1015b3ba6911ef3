use worm_miner::server::header_cache::HeaderCache;

#[test]
fn header_is_fetched_once_then_served() {
    let mut cache: HeaderCache<u32> = HeaderCache::new();
    assert!(!cache.contains(10));
    assert_eq!(cache.get(10), None);
    cache.insert(10, 777);
    assert!(cache.contains(10));
    assert_eq!(cache.get(10), Some(&777));
    assert!(!cache.contains(11));
    cache.insert(10, 778);
    assert_eq!(cache.get(10), Some(&778));
}
