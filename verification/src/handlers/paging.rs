//! Paging parameters shared by the list endpoints.

use vstd::prelude::*;

verus! {

/// Which songs or albums a list query selects: an optional artist and
/// optional inclusive bounds on the year.
#[derive(Debug)]
pub struct ListFilter {
    pub artist_id: Option<i32>,
    pub year_min: Option<i32>,
    pub year_max: Option<i32>,
}

/// A filter with no condition on the year.
pub fn artist_only(artist_id: Option<i32>) -> (f: ListFilter)
    ensures
        f.artist_id == artist_id,
        f.year_min is None,
        f.year_max is None,
{
    ListFilter { artist_id, year_min: None, year_max: None }
}

/// A filter on the artist and the requested year bounds.
pub fn artist_and_years(artist_id: Option<i32>, year_from: Option<i32>, year_to: Option<i32>) -> (f:
    ListFilter)
    ensures
        f.artist_id == artist_id,
        f.year_min == year_from,
        f.year_max == year_to,
{
    ListFilter { artist_id, year_min: year_from, year_max: year_to }
}

/// A filter on the artist and the year range of a by-year listing: the
/// bounds default to 0 and 9999.
pub fn artist_and_year_range(artist_id: Option<i32>, year_from: Option<i32>, year_to: Option<
    i32,
>) -> (f: ListFilter)
    ensures
        f.artist_id == artist_id,
        f.year_min == Some(
            match year_from {
                Some(y) => y,
                None => 0i32,
            },
        ),
        f.year_max == Some(
            match year_to {
                Some(y) => y,
                None => 9999i32,
            },
        ),
{
    let from = match year_from {
        Some(y) => y,
        None => 0,
    };
    let to = match year_to {
        Some(y) => y,
        None => 9999,
    };
    ListFilter { artist_id, year_min: Some(from), year_max: Some(to) }
}

/// `v` clamped to `[lo, hi]`.
pub open spec fn clamp(v: int, lo: int, hi: int) -> int {
    if v < lo {
        lo
    } else if v > hi {
        hi
    } else {
        v
    }
}

/// The page size a list endpoint uses: the requested `limit` (default
/// `default`) clamped to `[1, max]`.
pub fn page_limit(limit: Option<i32>, default: i32, max: i32) -> (n: u64)
    requires
        1 <= max,
    ensures
        n as int == clamp(
            match limit {
                Some(l) => l as int,
                None => default as int,
            },
            1,
            max as int,
        ),
{
    let l = match limit {
        Some(l) => l,
        None => default,
    };
    let c = if l < 1 {
        1
    } else if l > max {
        max
    } else {
        l
    };
    c as u64
}

/// The offset a list endpoint uses: the requested `offset` (default 0),
/// negative values raised to 0.
pub fn page_offset(offset: Option<i32>) -> (n: u64)
    ensures
        n as int == (match offset {
            Some(o) => if o < 0 {
                0
            } else {
                o as int
            },
            None => 0,
        }),
{
    match offset {
        Some(o) => if o < 0 {
            0
        } else {
            o as u64
        },
        None => 0,
    }
}

/// The number of leading entries of `s` whose time is at least `key`.
pub open spec fn leading_at_least(s: Seq<(i32, i64)>, key: i64) -> int
    decreases s.len(),
{
    if s.len() == 0 {
        0
    } else if s[0].1 >= key {
        1 + leading_at_least(s.drop_first(), key)
    } else {
        0
    }
}

/// `x` inserted into `s` after every leading entry at least as recent.
pub open spec fn insert_desc(s: Seq<(i32, i64)>, x: (i32, i64)) -> Seq<(i32, i64)> {
    s.insert(leading_at_least(s, x.1), x)
}

/// The stable sort of `s` by time, most recent first: what
/// `sort_by(|a, b| b.1.cmp(&a.1))` produces.
pub open spec fn sort_desc(s: Seq<(i32, i64)>) -> Seq<(i32, i64)>
    decreases s.len(),
{
    if s.len() == 0 {
        Seq::empty()
    } else {
        insert_desc(sort_desc(s.drop_last()), s.last())
    }
}

/// Whether `s` is ordered by time, most recent first.
pub open spec fn is_desc(s: Seq<(i32, i64)>) -> bool {
    forall|i: int, j: int| 0 <= i < j < s.len() ==> s[i].1 >= s[j].1
}

proof fn lemma_leading_at_least(s: Seq<(i32, i64)>, key: i64)
    ensures
        0 <= leading_at_least(s, key) <= s.len(),
        forall|j: int| 0 <= j < leading_at_least(s, key) ==> s[j].1 >= key,
        leading_at_least(s, key) < s.len() ==> s[leading_at_least(s, key)].1 < key,
    decreases s.len(),
{
    if s.len() > 0 && s[0].1 >= key {
        lemma_leading_at_least(s.drop_first(), key);
        assert forall|j: int| 0 <= j < leading_at_least(s, key) implies s[j].1 >= key by {
            if j > 0 {
                assert(s[j] == s.drop_first()[j - 1]);
            }
        }
    }
}

/// Inserting into a list ordered by time keeps it ordered.
proof fn lemma_insert_desc_sorted(s: Seq<(i32, i64)>, x: (i32, i64))
    requires
        is_desc(s),
    ensures
        is_desc(insert_desc(s, x)),
        insert_desc(s, x).len() == s.len() + 1,
{
    lemma_leading_at_least(s, x.1);
    let p = leading_at_least(s, x.1);
    let r = insert_desc(s, x);
    assert forall|i: int, j: int| 0 <= i < j < r.len() implies r[i].1 >= r[j].1 by {
        if j < p {
            assert(r[i] == s[i] && r[j] == s[j]);
        } else if j == p {
            assert(r[j] == x);
            assert(r[i] == s[i]);
        } else if i < p {
            assert(r[i] == s[i] && r[j] == s[j - 1]);
        } else if i == p {
            assert(r[i] == x && r[j] == s[j - 1]);
            assert(s[p].1 >= s[j - 1].1);
        } else {
            assert(r[i] == s[i - 1] && r[j] == s[j - 1]);
        }
    }
}

/// The stable sort is ordered by time, most recent first, and keeps every
/// entry.
pub proof fn lemma_sort_desc(s: Seq<(i32, i64)>)
    ensures
        is_desc(sort_desc(s)),
        sort_desc(s).len() == s.len(),
        sort_desc(s).to_multiset() == s.to_multiset(),
    decreases s.len(),
{
    broadcast use vstd::multiset::group_multiset_axioms;
    broadcast use vstd::seq_lib::group_to_multiset_ensures;

    if s.len() > 0 {
        lemma_sort_desc(s.drop_last());
        let t = sort_desc(s.drop_last());
        lemma_insert_desc_sorted(t, s.last());
        lemma_leading_at_least(t, s.last().1);
        let p = leading_at_least(t, s.last().1);
        assert(t.insert(p, s.last()) =~= t.take(p).push(s.last()) + t.skip(p));
        vstd::seq_lib::lemma_multiset_commutative(t.take(p).push(s.last()), t.skip(p));
        vstd::seq_lib::lemma_multiset_commutative(t.take(p), t.skip(p));
        assert(t.take(p) + t.skip(p) =~= t);
        assert(s.drop_last().push(s.last()) =~= s);
    } else {
        assert(s.to_multiset() =~= vstd::multiset::Multiset::empty());
        assert(sort_desc(s).to_multiset() =~= vstd::multiset::Multiset::empty());
    }
}

/// Sorts entries by time, most recent first, keeping the input order among
/// entries of equal time.
pub fn sort_by_time_desc(entries: &Vec<(i32, i64)>) -> (r: Vec<(i32, i64)>)
    ensures
        r@ == sort_desc(entries@),
{
    let mut r: Vec<(i32, i64)> = Vec::new();
    let mut i: usize = 0;
    while i < entries.len()
        invariant
            i <= entries@.len(),
            r@ == sort_desc(entries@.take(i as int)),
        decreases entries@.len() - i,
    {
        let x = entries[i];
        let ghost before = r@;
        let mut p: usize = 0;
        assert(r@.skip(0) =~= r@);
        while p < r.len() && r[p].1 >= x.1
            invariant
                r@ == before,
                p <= r@.len(),
                leading_at_least(r@, x.1) == p + leading_at_least(r@.skip(p as int), x.1),
            decreases r@.len() - p,
        {
            assert(r@.skip(p as int).drop_first() =~= r@.skip(p as int + 1));
            p += 1;
        }
        proof {
            if p < r@.len() {
                assert(r@.skip(p as int)[0] == r@[p as int]);
            }
        }
        r.insert(p, x);
        assert(entries@.take(i as int + 1).drop_last() =~= entries@.take(i as int));
        i += 1;
    }
    assert(entries@.take(i as int) =~= entries@);
    r
}

/// The ids of the page `[offset, offset + limit)` of `s` (clipped to `s`).
pub open spec fn page_ids(s: Seq<(i32, i64)>, offset: int, limit: int) -> Seq<i32> {
    let start = if offset < s.len() {
        offset
    } else {
        s.len() as int
    };
    let end = if start + limit < s.len() {
        start + limit
    } else {
        s.len() as int
    };
    s.subrange(start, end).map_values(|e: (i32, i64)| e.0)
}

/// The ids of one page: `skip(offset).take(limit)`.
pub fn page_of(s: &Vec<(i32, i64)>, offset: u64, limit: u64) -> (ids: Vec<i32>)
    ensures
        ids@ == page_ids(s@, offset as int, limit as int),
{
    let n: usize = s.len();
    let start: usize = if offset < n as u64 {
        offset as usize
    } else {
        n
    };
    let end: usize = if limit < (n - start) as u64 {
        start + limit as usize
    } else {
        n
    };
    let mut ids: Vec<i32> = Vec::new();
    let mut k: usize = start;
    while k < end
        invariant
            n == s@.len(),
            start <= k <= end <= n,
            ids@ == s@.subrange(start as int, k as int).map_values(|e: (i32, i64)| e.0),
        decreases end - k,
    {
        ids.push(s[k].0);
        assert(s@.subrange(start as int, k as int + 1).map_values(|e: (i32, i64)| e.0)
            =~= s@.subrange(start as int, k as int).map_values(|e: (i32, i64)| e.0).push(
            s@[k as int].0,
        ));
        k += 1;
    }
    ids
}

} // verus!
