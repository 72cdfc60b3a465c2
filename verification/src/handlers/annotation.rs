//! Stars, ratings, scrobbles and their listings: the requests, the replies,
//! and the defaults each request takes.

use vstd::prelude::*;
use crate::handlers::paging::{clamp, page_limit, page_offset};
use crate::services::annotation::{history_view, opt_view, HistoryResults};

verus! {

/// Stars or unstars an item; `kind` is its `type` field.
#[derive(Debug)]
pub struct StarRequest {
    pub kind: String,
    pub id: i32,
}

/// Rates an item.
#[derive(Debug)]
pub struct RateRequest {
    pub kind: String,
    pub id: i32,
    pub rating: i32,
}

/// Clears an item's rating.
#[derive(Debug)]
pub struct ClearRateRequest {
    pub kind: String,
    pub id: i32,
}

/// Records a play, or a now-playing notice when `submission` is false.
#[derive(Debug)]
pub struct ScrobbleRequest {
    pub song_id: i32,
    pub submission: Option<bool>,
    pub played_at: Option<i64>,
}

/// A page of a listing.
#[derive(Debug)]
pub struct PagedRequest {
    pub offset: Option<i32>,
    pub limit: Option<i32>,
}

/// One play in the history reply.
#[derive(Debug)]
pub struct ScrobbleEntry {
    pub id: i32,
    pub song_id: i32,
    pub title: String,
    pub artist_name: String,
    pub album_name: Option<String>,
    pub played_at: i64,
}

/// The history reply: a page of plays and the total.
#[derive(Debug)]
pub struct PlayHistory {
    pub entries: Vec<ScrobbleEntry>,
    pub total: u64,
}

/// The window of a listing page: offset at least 0 (0 by default) and limit
/// between 1 and 500 (50 by default).
pub fn paged_window(req: &PagedRequest) -> (r: (u64, u64))
    ensures
        r.0 as int == (match req.offset {
            Some(o) => if o < 0 {
                0
            } else {
                o as int
            },
            None => 0,
        }),
        r.1 as int == clamp(
            match req.limit {
                Some(l) => l as int,
                None => 50,
            },
            1,
            500,
        ),
{
    (page_offset(req.offset), page_limit(req.limit, 50, 500))
}

/// The play to record: a now-playing notice unless `submission` is set, at
/// the time given or `now`.
pub fn scrobble_params(req: &ScrobbleRequest, now: i64) -> (r: (bool, i64))
    ensures
        r.0 == (match req.submission {
            Some(b) => b,
            None => false,
        }),
        r.1 == (match req.played_at {
            Some(t) => t,
            None => now,
        }),
{
    let submission = match req.submission {
        Some(b) => b,
        None => false,
    };
    let played_at = match req.played_at {
        Some(t) => t,
        None => now,
    };
    (submission, played_at)
}

/// The model of a history reply entry.
pub open spec fn scrobble_entry_view(e: ScrobbleEntry) -> (
    i32,
    i32,
    Seq<char>,
    Seq<char>,
    Option<Seq<char>>,
    i64,
) {
    (e.id, e.song_id, e.title@, e.artist_name@, opt_view(e.album_name), e.played_at)
}

/// The history reply for a page of plays.
pub fn play_history(results: HistoryResults) -> (h: PlayHistory)
    ensures
        h.total == results.total,
        h.entries@.len() == results.entries@.len(),
        forall|k: int|
            0 <= k < results.entries@.len() ==> scrobble_entry_view(#[trigger] h.entries@[k])
                == history_view(results.entries@[k]),
{
    let mut entries: Vec<ScrobbleEntry> = Vec::new();
    let mut i: usize = 0;
    while i < results.entries.len()
        invariant
            i <= results.entries@.len(),
            entries@.len() == i,
            forall|k: int|
                0 <= k < i ==> scrobble_entry_view(#[trigger] entries@[k]) == history_view(
                    results.entries@[k],
                ),
        decreases results.entries@.len() - i,
    {
        let e = &results.entries[i];
        entries.push(
            ScrobbleEntry {
                id: e.id,
                song_id: e.song_id,
                title: e.title.clone(),
                artist_name: e.artist_name.clone(),
                album_name: e.album_name.clone(),
                played_at: e.played_at,
            },
        );
        i += 1;
    }
    PlayHistory { entries, total: results.total }
}

} // verus!
