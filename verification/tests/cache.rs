use virus_scanner::cache::{ResultCache, CACHE_EXPIRATION_MS};
use virus_scanner::virus_total::{ScanResult, ScanStatus};

fn record(path: &str, digest: &str, date: u64) -> ScanResult {
    ScanResult {
        file_path: path.to_string(),
        file_name: "f".to_string(),
        file_size: 1,
        file_hash: digest.to_string(),
        scan_date: date,
        status: ScanStatus::Clean,
        detection_count: Some(0),
        total_engines: Some(70),
        permalink: None,
        vendor_results: None,
    }
}

#[test]
fn empty_cache_misses() {
    let mut cache = ResultCache::new();
    assert_eq!(cache.len(), 0);
    assert_eq!(cache.lookup("abc", 10), None);
}

#[test]
fn stored_verdict_is_served_within_the_window() {
    let mut cache = ResultCache::new();
    cache.store("abc".to_string(), record("/a", "abc", 5), 1_000);
    assert_eq!(cache.lookup("abc", 1_000), Some(record("/a", "abc", 5)));
    assert_eq!(
        cache.lookup("abc", 1_000 + CACHE_EXPIRATION_MS - 1),
        Some(record("/a", "abc", 5))
    );
    assert_eq!(cache.lookup("abd", 1_000), None);
    assert_eq!(cache.len(), 1);
}

#[test]
fn verdict_at_the_window_is_dropped() {
    let mut cache = ResultCache::new();
    cache.store("abc".to_string(), record("/a", "abc", 5), 1_000);
    assert_eq!(cache.lookup("abc", 1_000 + 86_400_000), None);
    assert_eq!(cache.len(), 0);
    assert_eq!(cache.lookup("abc", 1_001), None);
}

#[test]
fn store_overwrites() {
    let mut cache = ResultCache::with_expiration(100);
    cache.store("abc".to_string(), record("/a", "abc", 5), 0);
    cache.store("xyz".to_string(), record("/x", "xyz", 6), 10);
    cache.store("abc".to_string(), record("/b", "abc", 7), 90);
    assert_eq!(cache.len(), 2);
    assert_eq!(cache.lookup("abc", 150), Some(record("/b", "abc", 7)));
    assert_eq!(cache.lookup("xyz", 109), Some(record("/x", "xyz", 6)));
    assert_eq!(cache.lookup("xyz", 110), None);
    assert_eq!(cache.len(), 1);
}

#[test]
fn clock_that_runs_back_serves() {
    let mut cache = ResultCache::with_expiration(100);
    cache.store("abc".to_string(), record("/a", "abc", 5), 500);
    assert_eq!(cache.lookup("abc", 400), Some(record("/a", "abc", 5)));
    let mut never = ResultCache::with_expiration(0);
    never.store("abc".to_string(), record("/a", "abc", 5), 500);
    assert_eq!(never.lookup("abc", 500), None);
}
