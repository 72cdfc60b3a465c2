//! The expiring key/value store shared by the in-process cache backends.
//!
//! Entries live in a `dashmap::DashMap` keyed by the cache key; each entry
//! holds the cached text and, optionally, the instant (in nanoseconds since
//! the store was created) from which the entry counts as expired.

use std::time::Instant;
use vstd::prelude::*;
use ::dashmap::DashMap;

verus! {

#[verifier::external_type_specification]
#[verifier::external_body]
#[verifier::reject_recursive_types(K)]
#[verifier::reject_recursive_types(V)]
#[verifier::reject_recursive_types(S)]
pub struct ExDashMap<K, V, S>(::dashmap::DashMap<K, V, S>);

#[verifier::external_type_specification]
#[verifier::external_body]
pub struct ExInstant(std::time::Instant);

/// The model of one entry: cached text and expiry.
pub type EntryView = (Seq<char>, Option<u128>);

/// The map that holds the cache entries: key, then cached text and expiry.
pub type EntryMap = DashMap<String, (String, Option<u128>)>;

/// What a map of cache entries holds: for each key, the cached text and its
/// optional expiry (nanoseconds since the store's origin).
pub uninterp spec fn dashmap_entries(
    m: EntryMap,
) -> Map<Seq<char>, EntryView>;

/// The entries of an empty store.
pub open spec fn no_entries() -> Map<Seq<char>, EntryView> {
    Map::empty()
}

/// `DashMap::new`: a map with no entries.
#[verifier::external_body]
fn entries_new() -> (created: EntryMap)
    ensures
        dashmap_entries(created) == no_entries(),
{
    DashMap::new()
}

/// `DashMap::get` followed by a clone of the value: the entry stored under
/// `key`, if any. The map is left as it was.
#[verifier::external_body]
fn entries_get(m: &EntryMap, key: &str) -> (r: Option<(String, Option<u128>)>)
    ensures
        match r {
            Some(e) => dashmap_entries(*m).contains_key(key@) && dashmap_entries(*m)[key@] == (
                e.0@,
                e.1,
            ),
            None => !dashmap_entries(*m).contains_key(key@),
        },
{
    m.get(key).map(|entry| entry.value().clone())
}

/// `DashMap::insert`: afterwards `key` maps to `value`, every other key is
/// unchanged.
#[verifier::external_body]
fn entries_insert(
    m: &mut EntryMap,
    key: String,
    value: (String, Option<u128>),
)
    ensures
        dashmap_entries(*final(m)) == dashmap_entries(*old(m)).insert(key@, (value.0@, value.1)),
{
    m.insert(key, value);
}

/// `DashMap::remove`: afterwards `key` has no entry, every other key is
/// unchanged.
#[verifier::external_body]
fn entries_remove(m: &mut EntryMap, key: &str)
    ensures
        dashmap_entries(*final(m)) == dashmap_entries(*old(m)).remove(key@),
{
    m.remove(key);
}

/// `Instant::now()`: the origin against which expiries are measured.
#[verifier::external_body]
pub(crate) fn instant_now() -> (i: Instant) {
    Instant::now()
}

/// `Instant::elapsed` in nanoseconds: the time since `origin`. Nothing is
/// claimed about the value: it is a clock reading.
#[verifier::external_body]
fn nanos_since(origin: &Instant) -> (n: u128) {
    origin.elapsed().as_nanos()
}

/// A time-to-live, held as `std::time::Duration` holds it: whole seconds and
/// the nanoseconds beyond them.
#[derive(Clone, Copy, Debug, PartialEq, Eq, Structural)]
pub struct Ttl {
    pub secs: u64,
    pub subsec_nanos: u32,
}

/// The length of a time-to-live in nanoseconds.
pub open spec fn ttl_nanos(t: Ttl) -> int {
    t.secs * 1_000_000_000 + t.subsec_nanos
}

/// The expiry offset an optional time-to-live gives, in nanoseconds.
pub open spec fn ttl_offset(ttl: Option<Ttl>) -> Option<u128> {
    match ttl {
        Some(t) => Some(ttl_nanos(t) as u128),
        None => None,
    }
}

impl Ttl {
    /// A time-to-live of whole seconds.
    pub fn from_secs(secs: u64) -> (t: Ttl)
        ensures
            t.secs == secs && t.subsec_nanos == 0,
    {
        Ttl { secs, subsec_nanos: 0 }
    }

    /// The time-to-live in nanoseconds.
    pub fn as_nanos(&self) -> (n: u128)
        ensures
            n == ttl_nanos(*self),
    {
        let secs = self.secs as u128;
        assert(secs * 1_000_000_000 <= 18446744073709551615u128 * 1_000_000_000) by (nonlinear_arith)
            requires
                secs <= 18446744073709551615u128,
        ;
        secs * 1_000_000_000 + self.subsec_nanos as u128
    }
}

/// Whether an entry counts as expired at time `now`.
pub open spec fn is_expired(e: EntryView, now: u128) -> bool {
    match e.1 {
        Some(exp) => now >= exp,
        None => false,
    }
}

/// What a lookup of `key` at time `now` answers.
pub open spec fn lookup(m: Map<Seq<char>, EntryView>, key: Seq<char>, now: u128) -> Option<Seq<char>> {
    if m.contains_key(key) && !is_expired(m[key], now) {
        Some(m[key].0)
    } else {
        None
    }
}

/// The entries after a lookup of `key` at time `now`: an expired entry is
/// dropped, anything else stays.
pub open spec fn after_lookup(
    m: Map<Seq<char>, EntryView>,
    key: Seq<char>,
    now: u128,
) -> Map<Seq<char>, EntryView> {
    if m.contains_key(key) && is_expired(m[key], now) {
        m.remove(key)
    } else {
        m
    }
}

/// The expiry of an entry stored at `now` with time-to-live `ttl`
/// (saturating at the largest representable instant).
pub open spec fn expiry_of(now: u128, ttl: Option<u128>) -> Option<u128> {
    match ttl {
        Some(t) => Some(
            if now + t > u128::MAX {
                u128::MAX
            } else {
                (now + t) as u128
            },
        ),
        None => None,
    }
}

/// The entries after storing `value` under `key` at `now` with `ttl`.
pub open spec fn after_store(
    m: Map<Seq<char>, EntryView>,
    key: Seq<char>,
    value: Seq<char>,
    ttl: Option<u128>,
    now: u128,
) -> Map<Seq<char>, EntryView> {
    m.insert(key, (value, expiry_of(now, ttl)))
}

/// The view of an optional owned string.
pub open spec fn opt_str(o: Option<String>) -> Option<Seq<char>> {
    match o {
        Some(s) => Some(s@),
        None => None,
    }
}

/// What a stored entry amounts to when read at some instant.
#[derive(Debug)]
pub enum EntryState {
    /// No entry is stored under the key.
    Missing,
    /// An entry is stored but its expiry has passed; it should be dropped.
    Expired,
    /// A live entry with its cached text.
    Live(String),
}

/// Classifies an entry read from a backend at time `now`.
pub fn classify_entry(entry: Option<(String, Option<u128>)>, now: u128) -> (st: EntryState)
    ensures
        match entry {
            None => st is Missing,
            Some(e) => match st {
                EntryState::Missing => false,
                EntryState::Expired => is_expired((e.0@, e.1), now),
                EntryState::Live(v) => !is_expired((e.0@, e.1), now) && v@ == e.0@,
            },
        },
{
    match entry {
        None => EntryState::Missing,
        Some(e) => {
            let (value, expires_at) = e;
            match expires_at {
                Some(exp) => {
                    if now >= exp {
                        return EntryState::Expired;
                    }
                },
                None => {},
            }
            EntryState::Live(value)
        },
    }
}

/// The expiry recorded for an entry stored at `now` with time-to-live `ttl`.
pub fn expiry_for(now: u128, ttl: Option<u128>) -> (e: Option<u128>)
    ensures
        e == expiry_of(now, ttl),
{
    match ttl {
        Some(t) => Some(now.saturating_add(t)),
        None => None,
    }
}

/// A value stored with a time-to-live is read back unchanged at any instant
/// before its expiry, and a value stored without one is read back at any
/// later instant.
pub proof fn lemma_read_after_store(
    m: Map<Seq<char>, EntryView>,
    key: Seq<char>,
    value: Seq<char>,
    ttl: Option<u128>,
    stored_at: u128,
    read_at: u128,
)
    requires
        ttl matches Some(t) ==> read_at < stored_at + t && stored_at + t <= u128::MAX,
    ensures
        lookup(after_store(m, key, value, ttl, stored_at), key, read_at) == Some(value),
        after_lookup(after_store(m, key, value, ttl, stored_at), key, read_at) == after_store(
            m,
            key,
            value,
            ttl,
            stored_at,
        ),
{
}

/// A value stored with a zero time-to-live is never read back at the same
/// or any later instant, which is when every later read on the store's own
/// clock acts.
pub proof fn lemma_zero_ttl_never_read(
    m: Map<Seq<char>, EntryView>,
    key: Seq<char>,
    value: Seq<char>,
    stored_at: u128,
    read_at: u128,
)
    requires
        read_at >= stored_at,
    ensures
        lookup(
            after_store(m, key, value, ttl_offset(Some(Ttl { secs: 0, subsec_nanos: 0 })), stored_at),
            key,
            read_at,
        ) == None::<Seq<char>>,
{
}

/// Once a value's expiry has passed, reading it misses and drops it.
pub proof fn lemma_read_after_expiry(
    m: Map<Seq<char>, EntryView>,
    key: Seq<char>,
    value: Seq<char>,
    t: u128,
    stored_at: u128,
    read_at: u128,
)
    requires
        read_at >= stored_at + t,
    ensures
        lookup(after_store(m, key, value, Some(t), stored_at), key, read_at) == None::<Seq<char>>,
        after_lookup(after_store(m, key, value, Some(t), stored_at), key, read_at) == m.remove(
            key,
        ),
{
    assert(m.insert(key, (value, expiry_of(stored_at, Some(t)))).remove(key) =~= m.remove(key));
}

/// After a key is deleted, reading it misses at any instant.
pub proof fn lemma_read_after_delete(m: Map<Seq<char>, EntryView>, key: Seq<char>, now: u128)
    ensures
        lookup(m.remove(key), key, now) == None::<Seq<char>>,
        after_lookup(m.remove(key), key, now) == m.remove(key),
{
}

/// Storing or deleting one key leaves what another key reads unchanged.
pub proof fn lemma_other_keys_unaffected(
    m: Map<Seq<char>, EntryView>,
    key: Seq<char>,
    other: Seq<char>,
    value: Seq<char>,
    ttl: Option<u128>,
    stored_at: u128,
    now: u128,
)
    requires
        key != other,
    ensures
        lookup(after_store(m, key, value, ttl, stored_at), other, now) == lookup(m, other, now),
        lookup(m.remove(key), other, now) == lookup(m, other, now),
{
}

/// An expiring key/value store.
#[derive(Debug)]
pub struct TtlStore {
    entries: EntryMap,
    origin: Instant,
    /// The latest instant the store's clock has read.
    latest: u128,
}

impl View for TtlStore {
    type V = Map<Seq<char>, EntryView>;

    closed spec fn view(&self) -> Self::V {
        dashmap_entries(self.entries)
    }
}

impl TtlStore {
    /// The latest instant the store has acted at on its own clock; its clock
    /// never reads an earlier one.
    pub closed spec fn clock_floor(&self) -> u128 {
        self.latest
    }

    /// An empty store whose clock starts now.
    pub fn new() -> (s: Self)
        ensures
            s@ == no_entries(),
            s.clock_floor() == 0,
    {
        TtlStore { entries: entries_new(), origin: instant_now(), latest: 0 }
    }

    /// Nanoseconds elapsed since the store was created, never less than an
    /// earlier reading.
    fn clock(&mut self) -> (n: u128)
        ensures
            n >= old(self).clock_floor(),
            final(self).clock_floor() == n,
            final(self)@ == old(self)@,
    {
        let reading = nanos_since(&self.origin);
        let n = if reading > self.latest {
            reading
        } else {
            self.latest
        };
        self.latest = n;
        n
    }

    /// Looks `key` up as of time `now`, dropping the entry if it has expired.
    pub fn get_at(&mut self, key: &str, now: u128) -> (r: Option<String>)
        ensures
            opt_str(r) == lookup(old(self)@, key@, now),
            final(self)@ == after_lookup(old(self)@, key@, now),
            final(self).clock_floor() == old(self).clock_floor(),
    {
        let entry = entries_get(&self.entries, key);
        match classify_entry(entry, now) {
            EntryState::Missing => None,
            EntryState::Expired => {
                entries_remove(&mut self.entries, key);
                None
            },
            EntryState::Live(value) => Some(value),
        }
    }

    /// Stores `value` under `key` at time `now`, expiring `ttl` nanoseconds
    /// later when a time-to-live is given.
    pub fn set_at(&mut self, key: &str, value: &str, ttl: Option<u128>, now: u128)
        ensures
            final(self)@ == after_store(old(self)@, key@, value@, ttl, now),
            final(self).clock_floor() == old(self).clock_floor(),
    {
        let expires_at = expiry_for(now, ttl);
        entries_insert(&mut self.entries, key.to_owned(), (value.to_owned(), expires_at));
    }

    /// Looks `key` up as of the current instant, which is no earlier than
    /// any instant the store acted at before.
    pub fn get(&mut self, key: &str) -> (r: Option<String>)
        ensures
            exists|now: u128|
                now >= old(self).clock_floor() && final(self).clock_floor() == now && opt_str(r)
                    == lookup(old(self)@, key@, now) && final(self)@ == after_lookup(
                    old(self)@,
                    key@,
                    now,
                ),
    {
        let now = self.clock();
        self.get_at(key, now)
    }

    /// Stores `value` under `key` at the current instant, which is no earlier
    /// than any instant the store acted at before, with an optional
    /// time-to-live.
    pub fn set(&mut self, key: &str, value: &str, ttl: Option<Ttl>)
        ensures
            exists|now: u128|
                now >= old(self).clock_floor() && final(self).clock_floor() == now && final(self)@
                    == after_store(old(self)@, key@, value@, ttl_offset(ttl), now),
    {
        let now = self.clock();
        let t = match ttl {
            Some(d) => Some(d.as_nanos()),
            None => None,
        };
        self.set_at(key, value, t, now)
    }

    /// Removes `key`; a missing key is left alone.
    pub fn del(&mut self, key: &str)
        ensures
            final(self)@ == old(self)@.remove(key@),
            final(self).clock_floor() == old(self).clock_floor(),
    {
        entries_remove(&mut self.entries, key);
    }
}

} // verus!
