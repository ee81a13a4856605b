use rnode::cache::{elapsed, Cache, CacheEntry};

#[test]
fn cache_serves_fresh_entries() {
    let mut cache: Cache<i64> = Cache::new(1_000);
    assert_eq!(cache.get("a", 0), None);
    cache.set("a".to_string(), 7, 100);
    assert_eq!(cache.get("a", 100), Some(7));
    assert_eq!(cache.get("a", 1_099), Some(7));
    assert_eq!(cache.get("a", 1_100), None);
    assert_eq!(cache.get("b", 100), None);
}

#[test]
fn cache_replaces_the_entry_of_a_key() {
    let mut cache: Cache<i64> = Cache::new(1_000);
    cache.set("a".to_string(), 7, 100);
    cache.set("b".to_string(), 8, 200);
    cache.set("a".to_string(), 9, 900);
    assert_eq!(cache.get("a", 1_500), Some(9));
    assert_eq!(cache.get("b", 1_100), Some(8));
    assert_eq!(cache.get("b", 1_200), None);
    assert_eq!(cache.keys.len(), 2);
}

#[test]
fn cache_drops_expired_entries() {
    let mut cache: Cache<i64> = Cache::new(1_000);
    cache.set("a".to_string(), 1, 0);
    cache.set("b".to_string(), 2, 500);
    cache.set("c".to_string(), 3, 999);
    cache.clear_expired(1_200);
    assert_eq!(cache.keys, vec!["b".to_string(), "c".to_string()]);
    assert_eq!(cache.get("a", 1_200), None);
    assert_eq!(cache.get("b", 1_200), Some(2));
    assert_eq!(cache.get("c", 1_200), Some(3));
    cache.clear_expired(2_000);
    assert!(cache.keys.is_empty());
    assert!(cache.entries.is_empty());
}

#[test]
fn cache_without_time_to_live_serves_nothing() {
    let mut cache: Cache<bool> = Cache::new(0);
    cache.set("a".to_string(), true, 5);
    assert_eq!(cache.get("a", 5), None);
    assert_eq!(cache.get("a", 4), None);
}

#[test]
fn elapsed_time_is_never_negative() {
    assert_eq!(elapsed(10, 25), 15);
    assert_eq!(elapsed(25, 10), 0);
    assert_eq!(elapsed(0, u64::MAX), u64::MAX);
}

#[test]
fn cache_entry_holds_value_and_time() {
    let entry = CacheEntry { data: "x", timestamp: 3 };
    assert_eq!(entry.data, "x");
    assert_eq!(entry.timestamp, 3);
}
