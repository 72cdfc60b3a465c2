//! Cache backend over a concurrent hash map, with per-entry expiry.

use vstd::prelude::*;
use crate::cache::store::{
    after_lookup, after_store, lookup, no_entries, opt_str, ttl_offset, EntryView, Ttl, TtlStore,
};

verus! {

/// Cache backend over a concurrent hash map, with per-entry expiry.
#[derive(Debug)]
pub struct DashMapCache {
    store: TtlStore,
}

impl View for DashMapCache {
    type V = Map<Seq<char>, EntryView>;

    closed spec fn view(&self) -> Self::V {
        self.store@
    }
}

impl DashMapCache {
    /// The latest instant the cache has acted at on its own clock; later
    /// reads and writes on that clock act no earlier.
    pub closed spec fn clock_floor(&self) -> u128 {
        self.store.clock_floor()
    }

    /// Creates a new empty cache.
    pub fn new() -> (c: Self)
        ensures
            c@ == no_entries(),
    {
        DashMapCache { store: TtlStore::new() }
    }

    /// Looks up a key. Returns `Some(value)` on a hit, `None` on a miss or an
    /// expired entry; an expired entry is removed on access. The lookup acts
    /// at the current instant, no earlier than any before it.
    pub fn get(&mut self, key: &str) -> (r: Option<String>)
        ensures
            exists|now: u128|
                now >= old(self).clock_floor() && final(self).clock_floor() == now && opt_str(r)
                    == lookup(old(self)@, key@, now) && final(self)@ == after_lookup(
                    old(self)@,
                    key@,
                    now,
                ),
    {
        let ghost before = self@;
        let ghost floor = self.clock_floor();
        let r = self.store.get(key);
        proof {
            let w = choose|now: u128|
                now >= floor && self.store.clock_floor() == now && opt_str(r) == lookup(
                    before,
                    key@,
                    now,
                ) && self@ == after_lookup(before, key@, now);
            assert(opt_str(r) == lookup(before, key@, w));
        }
        r
    }

    /// Looks up a key as of `now` (nanoseconds on the cache's clock).
    pub fn get_at(&mut self, key: &str, now: u128) -> (r: Option<String>)
        ensures
            opt_str(r) == lookup(old(self)@, key@, now),
            final(self)@ == after_lookup(old(self)@, key@, now),
            final(self).clock_floor() == old(self).clock_floor(),
    {
        self.store.get_at(key, now)
    }

    /// Stores a value under a key, with an optional time-to-live, at the
    /// current instant, no earlier than any before it.
    pub fn set(&mut self, key: &str, value: &str, ttl: Option<Ttl>)
        ensures
            exists|now: u128|
                now >= old(self).clock_floor() && final(self).clock_floor() == now && final(self)@
                    == after_store(old(self)@, key@, value@, ttl_offset(ttl), now),
    {
        let ghost before = self@;
        let ghost floor = self.clock_floor();
        self.store.set(key, value, ttl);
        proof {
            let w = choose|now: u128|
                now >= floor && self.store.clock_floor() == now && self@ == after_store(
                    before,
                    key@,
                    value@,
                    ttl_offset(ttl),
                    now,
                );
            assert(self@ == after_store(before, key@, value@, ttl_offset(ttl), w));
        }
    }

    /// Stores a value under a key as of `now`, with an optional time-to-live
    /// in nanoseconds.
    pub fn set_at(&mut self, key: &str, value: &str, ttl_nanos: Option<u128>, now: u128)
        ensures
            final(self)@ == after_store(old(self)@, key@, value@, ttl_nanos, now),
            final(self).clock_floor() == old(self).clock_floor(),
    {
        self.store.set_at(key, value, ttl_nanos, now)
    }

    /// Deletes a key. No-op if the key does not exist.
    pub fn del(&mut self, key: &str)
        ensures
            final(self)@ == old(self)@.remove(key@),
            final(self).clock_floor() == old(self).clock_floor(),
    {
        self.store.del(key)
    }

    /// Checks whether a key exists and has not expired, at the current
    /// instant, no earlier than any before it.
    pub fn key_exists(&mut self, key: &str) -> (b: bool)
        ensures
            exists|now: u128|
                now >= old(self).clock_floor() && final(self).clock_floor() == now && b == lookup(
                    old(self)@,
                    key@,
                    now,
                ) is Some && final(self)@ == after_lookup(old(self)@, key@, now),
    {
        let ghost before = self@;
        let ghost floor = self.clock_floor();
        let r = self.get(key);
        proof {
            let w = choose|now: u128|
                now >= floor && self.clock_floor() == now && opt_str(r) == lookup(before, key@, now)
                    && self@ == after_lookup(before, key@, now);
            assert(lookup(before, key@, w) is Some == r is Some);
        }
        r.is_some()
    }

    /// Checks whether a key exists and has not expired as of `now`.
    pub fn key_exists_at(&mut self, key: &str, now: u128) -> (b: bool)
        ensures
            b == lookup(old(self)@, key@, now) is Some,
            final(self)@ == after_lookup(old(self)@, key@, now),
            final(self).clock_floor() == old(self).clock_floor(),
    {
        self.get_at(key, now).is_some()
    }
}

} // verus!
