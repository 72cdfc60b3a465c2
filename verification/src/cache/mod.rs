//! Cache backends.

pub mod store;
pub mod memory;
pub mod dash_map;
pub mod moka_cache;
pub mod redis_cache;

pub use self::memory::MemoryCache;
pub use self::dash_map::DashMapCache;
pub use self::moka_cache::MokaCache;
pub use self::redis_cache::RedisCache;

use vstd::prelude::*;

verus! {

/// The cache backend selected by the configuration.
pub enum CacheBackend {
    DashMap(DashMapCache),
    Moka(MokaCache),
    Redis(RedisCache),
}

/// The name under which each backend is reported.
pub open spec fn backend_name(b: &CacheBackend) -> Seq<char> {
    match b {
        CacheBackend::Moka(_) => "moka"@,
        CacheBackend::DashMap(_) => "dashmap"@,
        CacheBackend::Redis(_) => "redis"@,
    }
}

impl CacheBackend {
    /// The backend's name: `"moka"`, `"dashmap"` or `"redis"`.
    pub fn kind(&self) -> (k: &'static str)
        ensures
            k@ == backend_name(self),
    {
        match self {
            CacheBackend::Moka(_) => "moka",
            CacheBackend::DashMap(_) => "dashmap",
            CacheBackend::Redis(_) => "redis",
        }
    }
}

} // verus!
