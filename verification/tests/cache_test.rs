use wikify_web::cache::{chat_key, file_key, repository_key, wiki_key, CacheEntry, CacheManager, MemoryCache};

const SEC: u64 = 1_000_000_000;

#[test]
fn entry_lifecycle() {
    let mut e = CacheEntry::new(7u32, Some(10), 100);
    assert_eq!(e.created_at, 100);
    assert_eq!(e.expires_at, Some(110));
    assert!(!e.is_expired(110));
    assert!(e.is_expired(111));
    assert_eq!(*e.access(105), 7);
    assert_eq!(e.access_count, 1);
    assert_eq!(e.last_accessed, 105);
    let forever = CacheEntry::new(1u8, None, 5);
    assert!(!forever.is_expired(u64::MAX));
}

#[test]
fn read_after_write() {
    let mut cache: MemoryCache<String> = MemoryCache::new(10, Some(60 * SEC));
    cache.set("k".to_string(), "v".to_string(), None).unwrap();
    assert_eq!(cache.get("k"), Some("v".to_string()));
    assert_eq!(cache.get("missing"), None);
    assert_eq!(cache.size(), 1);
}

#[test]
fn expired_entries_are_gone() {
    let mut cache: MemoryCache<u32> = MemoryCache::new(10, None);
    cache.set_at("a".to_string(), 1, Some(10), 0).unwrap();
    cache.set_at("b".to_string(), 2, None, 0).unwrap();
    assert_eq!(cache.get_at("a", 10), Some(1));
    assert_eq!(cache.get_at("a", 11), None);
    assert_eq!(cache.size(), 1);
    assert_eq!(cache.get_at("b", 1_000_000), Some(2));
}

#[test]
fn full_cache_evicts_least_recently_used() {
    let mut cache: MemoryCache<u32> = MemoryCache::new(2, None);
    cache.set_at("a".to_string(), 1, None, 1).unwrap();
    cache.set_at("b".to_string(), 2, None, 2).unwrap();
    assert_eq!(cache.get_at("a", 3), Some(1));
    cache.set_at("c".to_string(), 3, None, 4).unwrap();
    assert_eq!(cache.size(), 2);
    assert_eq!(cache.get_at("b", 5), None);
    assert_eq!(cache.get_at("a", 5), Some(1));
    assert_eq!(cache.get_at("c", 5), Some(3));
    // overwriting a present key evicts nothing
    cache.set_at("a".to_string(), 10, None, 6).unwrap();
    assert_eq!(cache.size(), 2);
    assert_eq!(cache.get_at("a", 7), Some(10));
}

#[test]
fn zero_capacity_still_holds_one() {
    let mut cache: MemoryCache<u32> = MemoryCache::new(0, None);
    cache.set_at("a".to_string(), 1, None, 0).unwrap();
    cache.set_at("b".to_string(), 2, None, 1).unwrap();
    assert_eq!(cache.size(), 1);
    assert_eq!(cache.get_at("b", 2), Some(2));
}

#[test]
fn stats_and_cleanup() {
    let mut cache: MemoryCache<u32> = MemoryCache::new(5, None);
    cache.set_at("a".to_string(), 1, Some(5), 0).unwrap();
    cache.set_at("b".to_string(), 2, Some(50), 0).unwrap();
    assert_eq!(cache.get_at("b", 1), Some(2));
    assert_eq!(cache.get_at("b", 2), Some(2));
    let st = cache.stats_at(10);
    assert_eq!(st.total_entries, 2);
    assert_eq!(st.expired_entries, 1);
    assert_eq!(st.total_access_count, 2);
    assert_eq!(st.max_size, 5);
    assert_eq!(cache.remove_expired_at(10), 1);
    assert_eq!(cache.size(), 1);
    assert_eq!(cache.remove(&"b".to_string()), Some(2));
    assert_eq!(cache.remove("b"), None);
    assert_eq!(cache.get_at("b", 10), None);
    cache.set_at("c".to_string(), 3, None, 11).unwrap();
    cache.clear();
    assert_eq!(cache.size(), 0);
}

#[test]
fn manager_has_four_caches() {
    let mut m: CacheManager<String, String> = CacheManager::new();
    m.repositories.set("r".to_string(), "info".to_string(), None).unwrap();
    let stats = m.get_overall_stats();
    assert_eq!(stats.len(), 4);
    assert_eq!(stats[0].0, "repositories");
    assert_eq!(stats[0].1.total_entries, 1);
    assert_eq!(stats[0].1.max_size, 100);
    assert_eq!(stats[1].1.max_size, 1000);
    assert_eq!(stats[2].1.max_size, 50);
    assert_eq!(stats[3].1.max_size, 500);
    m.clear_all();
    assert_eq!(m.repositories.size(), 0);
}

#[test]
fn cache_keys() {
    assert_eq!(repository_key("https://github.com/a/b"), "repo:https://github.com/a/b");
    assert_eq!(wiki_key("s1", "h"), "wiki:s1:h");
    // sha256("s:q")
    let k = chat_key("s", "q");
    assert!(k.starts_with("chat:"));
    assert_eq!(k.len(), 5 + 64);
    assert_ne!(chat_key("s", "q"), chat_key("s", "r"));
    assert_eq!(file_key("a", "b"), format!("file:{}", wikify_web::api_keys::hash_key("a:b")));
}

#[test]
fn new_cache_reports_zero_stats() {
    let cache: MemoryCache<u32> = MemoryCache::new(7, Some(5));
    let st = cache.stats_at(100);
    assert_eq!((st.total_entries, st.expired_entries, st.total_access_count, st.max_size), (0, 0, 0, 7));
}
