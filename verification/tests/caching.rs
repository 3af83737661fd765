use greedy::cache::WeightedCache;
use greedy::config::CacheConfig;
use greedy::error::Error;
use greedy::guard::allowed_host;
use greedy::http::{lookup_cached, process_fetched, stats_snapshot, ApiState, Bytes};
use greedy::ops::ImageOptions;

/// A hand-written 2x2 24-bit BMP file.
fn bmp_2x2() -> Vec<u8> {
    let mut v: Vec<u8> = Vec::new();
    v.extend_from_slice(b"BM");
    v.extend_from_slice(&70u32.to_le_bytes());
    v.extend_from_slice(&[0u8; 4]);
    v.extend_from_slice(&54u32.to_le_bytes());
    v.extend_from_slice(&40u32.to_le_bytes());
    v.extend_from_slice(&2i32.to_le_bytes());
    v.extend_from_slice(&2i32.to_le_bytes());
    v.extend_from_slice(&1u16.to_le_bytes());
    v.extend_from_slice(&24u16.to_le_bytes());
    v.extend_from_slice(&0u32.to_le_bytes());
    v.extend_from_slice(&16u32.to_le_bytes());
    v.extend_from_slice(&[0u8; 16]);
    v.extend_from_slice(&[0, 0, 255, 0, 255, 0, 0, 0]);
    v.extend_from_slice(&[255, 0, 0, 255, 255, 255, 0, 0]);
    v
}

#[test]
fn cache_round_trip() {
    let mut cache = WeightedCache::with_capacity(1_000_000);
    let bytes = vec![1u8, 2, 3, 4];
    cache.insert("a_key".to_string(), bytes.clone());
    assert_eq!(cache.get(&"a_key".to_string()), Some(bytes));
    assert_eq!(cache.get(&"never_inserted".to_string()), None);
}

#[test]
fn zero_capacity_cache_retains_nothing() {
    // at capacity zero the store is disabled: even a weightless entry is
    // dropped and every lookup misses
    let mut cache = WeightedCache::with_capacity(0);
    cache.insert("k".to_string(), Vec::new());
    assert_eq!(cache.get(&"k".to_string()), None);
}

#[test]
fn cache_overwrites_same_key() {
    let mut cache = WeightedCache::with_capacity(1_000_000);
    cache.insert("k".to_string(), vec![1u8]);
    cache.insert("k".to_string(), vec![2u8, 3]);
    assert_eq!(cache.get(&"k".to_string()), Some(vec![2u8, 3]));
}

#[test]
fn capacity_bound_holds_after_maintenance() {
    let mut cache = WeightedCache::with_capacity(100);
    for i in 0..20u32 {
        cache.insert(format!("key_{i}"), vec![0u8; 50]);
    }
    cache.run_pending_tasks();
    let size = cache.weighted_size();
    assert!(size <= 100, "weighted size {size} exceeds capacity");
    let entries = cache.entry_count();
    assert!(entries <= 2, "{entries} entries of weight 50 within 100");
}

#[test]
fn stats_report_weight_and_entries() {
    let mut cache = WeightedCache::with_capacity(1_000_000);
    cache.insert("one".to_string(), vec![0u8; 10]);
    cache.insert("two".to_string(), vec![0u8; 30]);
    let (bytes, entries) = stats_snapshot(&mut cache);
    assert_eq!(entries, 2);
    assert_eq!(bytes.0, 40);
}

#[test]
fn bytes_as_mib_rounds_down() {
    assert_eq!(Bytes(3 * 1024 * 1024 + 12345).as_mib(), 3);
    assert_eq!(Bytes(0).as_mib(), 0);
    assert_eq!(Bytes(1024 * 1024 - 1).as_mib(), 0);
}

#[test]
fn whitelist_membership() {
    let whitelist = vec!["localhost".to_string(), "example.com".to_string()];
    assert!(allowed_host("http://localhost/pic.png", &whitelist).is_ok());
    assert!(allowed_host("https://example.com/x", &whitelist).is_ok());
    assert_eq!(
        allowed_host("https://elsewhere.org/x", &whitelist).unwrap_err(),
        Error::HostNotAllowed
    );
}

#[test]
fn whitelist_rejects_unparsable_url() {
    let whitelist = vec!["localhost".to_string()];
    assert_eq!(
        allowed_host("not a url at all", &whitelist).unwrap_err(),
        Error::HostNotAllowed
    );
    assert_eq!(
        allowed_host("", &whitelist).unwrap_err(),
        Error::HostNotAllowed
    );
}

#[test]
fn whitelist_is_case_sensitive_and_exact() {
    let whitelist = vec!["sub.example.com".to_string()];
    // no suffix matching: the bare domain is not whitelisted
    assert!(allowed_host("http://example.com/x", &whitelist).is_err());
    assert!(allowed_host("http://sub.example.com/x", &whitelist).is_ok());
}

#[test]
fn miss_then_hit_fetches_exactly_once() {
    let mut state = ApiState {
        whitelist: vec!["localhost".to_string()],
        cache: greedy::cache::new(&CacheConfig { capacity: 1_000_000 }),
    };
    let url = "http://localhost/pic.bmp";
    let opts = ImageOptions {
        format: None,
        width: None,
        height: None,
    };
    let mut fetch_count: u32 = 0;

    // first request: a miss, so the caller fetches and completes it
    let first = match lookup_cached(&mut state, url, &opts).unwrap() {
        Some(hit) => hit,
        None => {
            fetch_count += 1;
            let fetched = bmp_2x2();
            process_fetched(&mut state.cache, url, &opts, fetched).unwrap()
        }
    };

    // second identical request: served from cache, no further fetch
    let second = match lookup_cached(&mut state, url, &opts).unwrap() {
        Some(hit) => hit,
        None => {
            fetch_count += 1;
            let fetched = bmp_2x2();
            process_fetched(&mut state.cache, url, &opts, fetched).unwrap()
        }
    };

    assert_eq!(fetch_count, 1);
    assert_eq!(first, second);
    assert_eq!(first, bmp_2x2());
}

#[test]
fn rejected_host_is_turned_away_before_any_fetch() {
    let mut state = ApiState {
        whitelist: vec!["localhost".to_string()],
        cache: greedy::cache::new(&CacheConfig { capacity: 1_000_000 }),
    };
    let opts = ImageOptions {
        format: None,
        width: None,
        height: None,
    };
    let r = lookup_cached(&mut state, "http://forbidden.example/x", &opts);
    assert_eq!(r.unwrap_err(), Error::HostNotAllowed);
}

#[test]
fn failed_transform_never_populates_the_cache() {
    let mut state = ApiState {
        whitelist: vec!["localhost".to_string()],
        cache: greedy::cache::new(&CacheConfig { capacity: 1_000_000 }),
    };
    let url = "http://localhost/broken";
    let opts = ImageOptions {
        format: Some(greedy::keys::Format::Png),
        width: None,
        height: None,
    };
    let garbage = vec![9u8; 32];
    let r = process_fetched(&mut state.cache, url, &opts, garbage);
    assert_eq!(r.unwrap_err(), Error::Conversion);
    // the key must still miss
    assert_eq!(lookup_cached(&mut state, url, &opts).unwrap(), None);
}
