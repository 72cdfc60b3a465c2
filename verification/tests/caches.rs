use moosic::handlers::server::{status_cache_ttl, STATUS_CACHE_KEY};
use moosic::cache::dash_map::DashMapCache;
use moosic::cache::memory::MemoryCache;
use moosic::cache::CacheBackend;
use moosic::cache::store::Ttl;

#[test]
fn memory_read_after_write() {
    let mut c = MemoryCache::new();
    c.set("k", "v", None);
    assert_eq!(c.get("k"), Some("v".to_string()));
    assert!(c.key_exists("k"));
    assert_eq!(c.get("other"), None);
}

#[test]
fn memory_entry_expires_after_its_ttl() {
    let mut c = MemoryCache::new();
    c.set_at("k", "v", Some(100), 1_000);
    assert_eq!(c.get_at("k", 1_050), Some("v".to_string()));
    assert!(c.key_exists_at("k", 1_099));
    assert_eq!(c.get_at("k", 1_101), None);
    assert!(!c.key_exists_at("k", 1_101));
}

#[test]
fn memory_delete_removes_only_that_key() {
    let mut c = MemoryCache::new();
    c.set("a", "1", None);
    c.set("b", "2", Some(Ttl::from_secs(60)));
    c.del("a");
    assert_eq!(c.get("a"), None);
    assert_eq!(c.get("b"), Some("2".to_string()));
}

#[test]
fn memory_overwrite_replaces_value() {
    let mut c = MemoryCache::new();
    c.set_at("k", "old", Some(10), 0);
    c.set_at("k", "new", None, 5);
    assert_eq!(c.get_at("k", 1_000_000), Some("new".to_string()));
}

#[test]
fn dashmap_read_after_write_and_expiry() {
    let mut c = DashMapCache::new();
    c.set_at("k", "v", Some(10), 100);
    assert_eq!(c.get_at("k", 105), Some("v".to_string()));
    assert_eq!(c.get_at("k", 111), None);
    c.set("p", "q", None);
    assert_eq!(c.get("p"), Some("q".to_string()));
    c.del("p");
    assert!(!c.key_exists("p"));
}

#[test]
fn backend_names() {
    assert_eq!(CacheBackend::DashMap(DashMapCache::new()).kind(), "dashmap");
    assert_eq!(CacheBackend::Moka(moosic::cache::moka_cache::MokaCache::new()).kind(), "moka");
}

#[test]
fn ttl_counts_seconds_and_nanoseconds() {
    assert_eq!(Ttl::from_secs(2).as_nanos(), 2_000_000_000);
    assert_eq!(Ttl { secs: 1, subsec_nanos: 5 }.as_nanos(), 1_000_000_005);
    assert_eq!(Ttl { secs: u64::MAX, subsec_nanos: 999_999_999 }.as_nanos(), u64::MAX as u128 * 1_000_000_000 + 999_999_999);
}

#[test]
fn zero_ttl_entry_is_gone_from_the_instant_it_was_stored() {
    let mut c = DashMapCache::new();
    c.set_at("z", "1", Some(Ttl { secs: 0, subsec_nanos: 0 }.as_nanos()), 500);
    assert_eq!(c.get_at("z", 500), None);
    assert!(!c.key_exists_at("z", 500));
}

#[test]
fn zero_ttl_is_never_read_back_on_the_cache_clock() {
    let mut m = MemoryCache::new();
    m.set("z", "1", Some(Ttl { secs: 0, subsec_nanos: 0 }));
    m.set("k", "v", None);
    assert_eq!(m.get("z"), None);
    assert!(!m.key_exists("z"));
    assert_eq!(m.get("k"), Some("v".to_string()));
    let mut d = DashMapCache::new();
    d.set("k", "v", None);
    d.set("z", "1", Some(Ttl { secs: 0, subsec_nanos: 0 }));
    assert_eq!(d.get("k"), Some("v".to_string()));
    assert_eq!(d.get("z"), None);
    assert_eq!(d.get("missing"), None);
    assert!(d.key_exists("k"));
    assert!(!d.key_exists("z"));
}

#[test]
fn status_reports_are_cached_for_ten_seconds() {
    let t = status_cache_ttl();
    assert_eq!((t.secs, t.subsec_nanos), (10, 0));
    let mut c = MemoryCache::new();
    c.set_at(STATUS_CACHE_KEY, "{}", Some(t.as_nanos()), 1_000);
    assert_eq!(c.get_at(STATUS_CACHE_KEY, 1_000 + 9_999_999_999), Some("{}".to_string()));
    assert_eq!(c.get_at(STATUS_CACHE_KEY, 1_000 + 10_000_000_000), None);
}
