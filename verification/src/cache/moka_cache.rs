//! Cache backend over `moka`'s asynchronous cache.
//!
//! Reads and writes on a `moka::future::Cache` are awaited, so they run in the
//! server around this library; the expiry rules they apply are the verified
//! ones of [`crate::cache::store`].

use std::time::Instant;
use vstd::prelude::*;
use crate::cache::store::{instant_now, no_entries, EntryView};

verus! {

#[verifier::external_type_specification]
#[verifier::external_body]
#[verifier::reject_recursive_types(K)]
#[verifier::reject_recursive_types(V)]
#[verifier::reject_recursive_types(S)]
pub struct ExMokaCache<K, V, S>(::moka::future::Cache<K, V, S>);

/// The map that holds a Moka cache's entries: key, then cached text and
/// expiry.
pub type MokaEntryMap = ::moka::future::Cache<String, (String, Option<u128>)>;

/// What a Moka cache of entries holds: for each key, the cached text and its
/// optional expiry (nanoseconds since the cache's origin).
pub uninterp spec fn moka_entries(c: MokaEntryMap) -> Map<Seq<char>, EntryView>;

/// `moka::future::Cache::builder().build()`: a new, unbounded cache with no
/// eviction policy of its own, holding no entries.
#[verifier::external_body]
fn moka_unbounded() -> (c: MokaEntryMap)
    ensures
        moka_entries(c) == no_entries(),
{
    ::moka::future::Cache::builder().build()
}

/// Cache backend over `moka`, with per-entry expiry measured from `origin`.
pub struct MokaCache {
    pub cache: MokaEntryMap,
    pub origin: Instant,
}

impl MokaCache {
    /// Creates a new empty cache.
    pub fn new() -> (c: Self)
        ensures
            moka_entries(c.cache) == no_entries(),
    {
        MokaCache { cache: moka_unbounded(), origin: instant_now() }
    }
}

impl Default for MokaCache {
    fn default() -> (c: Self)
        ensures
            moka_entries(c.cache) == no_entries(),
    {
        Self::new()
    }
}

} // verus!
