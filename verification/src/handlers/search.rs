//! Search endpoints: the requests, the replies and the limits they take.

use vstd::prelude::*;
use crate::handlers::paging::{clamp, page_limit, page_offset};
use crate::services::annotation::opt_view;
use crate::services::search::{
    album_result_view, artist_result_view, song_result_view, SearchResults,
};

verus! {

/// A search; `kind` is its `type` field (a category or `all`).
#[derive(Debug)]
pub struct SearchRequest {
    pub query: String,
    pub kind: Option<String>,
    pub year_from: Option<i32>,
    pub year_to: Option<i32>,
    pub offset: Option<i32>,
    pub limit: Option<i32>,
}

/// An auto-complete request.
#[derive(Debug)]
pub struct SuggestRequest {
    pub query: String,
    pub limit: Option<i32>,
}

/// The search reply.
#[derive(Debug)]
pub struct SearchResult {
    pub artists: Vec<ArtistHit>,
    pub albums: Vec<AlbumHit>,
    pub songs: Vec<SongHit>,
    pub total_artists: i64,
    pub total_albums: i64,
    pub total_songs: i64,
}

/// An artist in the search reply.
#[derive(Debug)]
pub struct ArtistHit {
    pub id: i32,
    pub name: String,
    pub album_count: i64,
}

/// An album in the search reply.
#[derive(Debug)]
pub struct AlbumHit {
    pub id: i32,
    pub name: String,
    pub artist_name: String,
    pub year: Option<i32>,
}

/// A song in the search reply.
#[derive(Debug)]
pub struct SongHit {
    pub id: i32,
    pub title: String,
    pub artist_name: String,
    pub album_name: Option<String>,
    pub duration_secs: i32,
}

/// A suggestion in the reply; `kind` is its `type` field.
#[derive(Debug)]
pub struct Suggestion {
    pub kind: String,
    pub id: i32,
    pub text: String,
}

/// The window of a search: offset at least 0 (0 by default), limit between 1
/// and 500 (50 by default).
pub fn search_window(req: &SearchRequest) -> (r: (u64, u64))
    ensures
        r.0 as int == (match req.offset {
            Some(o) => if o < 0 {
                0
            } else {
                o as int
            },
            None => 0,
        }),
        r.1 as int == clamp(
            match req.limit {
                Some(l) => l as int,
                None => 50,
            },
            1,
            500,
        ),
{
    (page_offset(req.offset), page_limit(req.limit, 50, 500))
}

/// How many suggestions to give: between 1 and 50, 10 by default.
pub fn suggest_limit(req: &SuggestRequest) -> (n: u64)
    ensures
        n as int == clamp(
            match req.limit {
                Some(l) => l as int,
                None => 10,
            },
            1,
            50,
        ),
{
    page_limit(req.limit, 10, 50)
}

/// The view of an album hit.
pub open spec fn album_hit_view(h: AlbumHit) -> (i32, Seq<char>, Seq<char>, Option<i32>) {
    (h.id, h.name@, h.artist_name@, h.year)
}

/// The view of a song hit.
pub open spec fn song_hit_view(h: SongHit) -> (i32, Seq<char>, Seq<char>, Option<Seq<char>>, i32) {
    (h.id, h.title@, h.artist_name@, opt_view(h.album_name), h.duration_secs)
}

/// The search reply for the results of a search.
pub fn search_result(results: &SearchResults) -> (r: SearchResult)
    ensures
        r.artists@.len() == results.artists@.len(),
        forall|k: int|
            0 <= k < results.artists@.len() ==> {
                let a = #[trigger] r.artists@[k];
                artist_result_view(results.artists@[k]) == (a.id, a.name@, a.album_count as int)
            },
        r.albums@.len() == results.albums@.len(),
        forall|k: int|
            0 <= k < results.albums@.len() ==> {
                let v = album_result_view(results.albums@[k]);
                album_hit_view(#[trigger] r.albums@[k]) == (v.0, v.1, v.2, v.3)
            },
        r.songs@.len() == results.songs@.len(),
        forall|k: int|
            0 <= k < results.songs@.len() ==> {
                let v = song_result_view(results.songs@[k]);
                song_hit_view(#[trigger] r.songs@[k]) == (v.0, v.1, v.2, v.3, v.5)
            },
        r.total_artists == results.artist_total as i64,
        r.total_albums == results.album_total as i64,
        r.total_songs == results.song_total as i64,
{
    let mut artists: Vec<ArtistHit> = Vec::new();
    let mut i: usize = 0;
    while i < results.artists.len()
        invariant
            i <= results.artists@.len(),
            artists@.len() == i,
            forall|k: int|
                0 <= k < i ==> {
                    let a = #[trigger] artists@[k];
                    artist_result_view(results.artists@[k]) == (a.id, a.name@, a.album_count as int)
                },
        decreases results.artists@.len() - i,
    {
        let a = &results.artists[i];
        artists.push(ArtistHit { id: a.id, name: a.name.clone(), album_count: a.album_count });
        i += 1;
    }
    let mut albums: Vec<AlbumHit> = Vec::new();
    let mut j: usize = 0;
    while j < results.albums.len()
        invariant
            j <= results.albums@.len(),
            albums@.len() == j,
            forall|k: int|
                0 <= k < j ==> {
                    let v = album_result_view(results.albums@[k]);
                    album_hit_view(#[trigger] albums@[k]) == (v.0, v.1, v.2, v.3)
                },
        decreases results.albums@.len() - j,
    {
        let a = &results.albums[j];
        albums.push(
            AlbumHit {
                id: a.id,
                name: a.name.clone(),
                artist_name: a.artist_name.clone(),
                year: a.year,
            },
        );
        j += 1;
    }
    let mut songs: Vec<SongHit> = Vec::new();
    let mut k: usize = 0;
    while k < results.songs.len()
        invariant
            k <= results.songs@.len(),
            songs@.len() == k,
            forall|m: int|
                0 <= m < k ==> {
                    let v = song_result_view(results.songs@[m]);
                    song_hit_view(#[trigger] songs@[m]) == (v.0, v.1, v.2, v.3, v.5)
                },
        decreases results.songs@.len() - k,
    {
        let s = &results.songs[k];
        songs.push(
            SongHit {
                id: s.id,
                title: s.title.clone(),
                artist_name: s.artist_name.clone(),
                album_name: s.album_name.clone(),
                duration_secs: s.duration_secs,
            },
        );
        k += 1;
    }
    SearchResult {
        artists,
        albums,
        songs,
        total_artists: results.artist_total as i64,
        total_albums: results.album_total as i64,
        total_songs: results.song_total as i64,
    }
}

} // verus!
