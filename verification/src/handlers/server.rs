//! The server status report.

use vstd::prelude::*;
use crate::cache::store::{after_store, lookup, ttl_nanos, ttl_offset, EntryView, Ttl};

verus! {

/// The cache key under which the status report is kept.
pub const STATUS_CACHE_KEY: &'static str = "admin:server:status";

/// How long, in seconds, a cached status report is served.
pub const STATUS_CACHE_TTL_SECS: u64 = 10;

/// The time-to-live a status report is cached with: ten seconds.
pub fn status_cache_ttl() -> (t: Ttl)
    ensures
        t.secs == STATUS_CACHE_TTL_SECS && t.subsec_nanos == 0,
        ttl_nanos(t) == 10_000_000_000,
{
    Ttl::from_secs(STATUS_CACHE_TTL_SECS)
}

/// A status report cached at `cached_at` is served unchanged by every read
/// less than ten seconds later; from ten seconds on the cache misses, so the
/// report is computed afresh.
pub proof fn lemma_status_cached_for_ten_seconds(
    m: Map<Seq<char>, EntryView>,
    report: Seq<char>,
    cached_at: u128,
    read_at: u128,
)
    requires
        cached_at + 10_000_000_000 <= u128::MAX,
    ensures
        read_at < cached_at + 10_000_000_000 ==> lookup(
            after_store(
                m,
                STATUS_CACHE_KEY@,
                report,
                ttl_offset(Some(Ttl { secs: STATUS_CACHE_TTL_SECS, subsec_nanos: 0 })),
                cached_at,
            ),
            STATUS_CACHE_KEY@,
            read_at,
        ) == Some(report),
        read_at >= cached_at + 10_000_000_000 ==> lookup(
            after_store(
                m,
                STATUS_CACHE_KEY@,
                report,
                ttl_offset(Some(Ttl { secs: STATUS_CACHE_TTL_SECS, subsec_nanos: 0 })),
                cached_at,
            ),
            STATUS_CACHE_KEY@,
            read_at,
        ) == None::<Seq<char>>,
{
}

/// The server overview.
#[derive(Debug)]
pub struct ServerStatus {
    /// Application version.
    pub version: String,
    pub system: SystemStatus,
    pub database: DatabaseStatus,
    pub cache: CacheStatus,
    pub server: ServerInfo,
}

/// Process figures.
#[derive(Debug)]
pub struct SystemStatus {
    /// Physical memory usage in bytes.
    pub memory_usage: usize,
}

/// The database.
#[derive(Debug)]
pub struct DatabaseStatus {
    /// Database backend name, e.g. `sqlite`.
    pub backend: String,
    /// Whether the database answered a ping.
    pub connected: bool,
}

/// The cache.
#[derive(Debug)]
pub struct CacheStatus {
    /// Cache backend name.
    pub backend: String,
}

/// Where the server listens.
#[derive(Debug)]
pub struct ServerInfo {
    pub host: String,
    pub port: u16,
}

/// Assembles the status report from what was measured.
pub fn server_status(
    version: String,
    memory_usage: usize,
    db_backend: String,
    connected: bool,
    cache_backend: String,
    host: String,
    port: u16,
) -> (s: ServerStatus)
    ensures
        s.version == version && s.system.memory_usage == memory_usage,
        s.database.backend == db_backend && s.database.connected == connected,
        s.cache.backend == cache_backend && s.server.host == host && s.server.port == port,
{
    ServerStatus {
        version,
        system: SystemStatus { memory_usage },
        database: DatabaseStatus { backend: db_backend, connected },
        cache: CacheStatus { backend: cache_backend },
        server: ServerInfo { host, port },
    }
}

} // verus!
