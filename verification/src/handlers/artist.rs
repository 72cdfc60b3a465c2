//! Artists: request and response types, aggregates and list plans.

use vstd::prelude::*;
use vstd::string::*;
use crate::entities::{AlbumRow, ArtistRow, SongRow};
use crate::handlers::album::{song_totals, total_duration};
use crate::handlers::music::{copy_opt, opt_str_view};
use crate::handlers::paging::{clamp, page_limit, page_offset};
use crate::text::{decimal, int_to_decimal};

verus! {

/// An artist id.
#[derive(Debug)]
pub struct IdRequest {
    pub id: i32,
}

/// A request for the artist listing, optionally by leading text.
#[derive(Debug)]
pub struct ArtistListRequest {
    pub letter: Option<String>,
    pub offset: Option<i32>,
    pub limit: Option<i32>,
}

/// A cover request.
#[derive(Debug)]
pub struct CoverQuery {
    pub id: i32,
    pub size: Option<i32>,
}

/// A request for a page of an artist's songs.
#[derive(Debug)]
pub struct ArtistSongsRequest {
    pub id: i32,
    pub offset: Option<i32>,
    pub limit: Option<i32>,
}

/// An album of an artist.
#[derive(Debug)]
pub struct AlbumSummary {
    pub id: i32,
    pub name: String,
    pub year: Option<i32>,
    pub song_count: i64,
    pub duration_secs: i64,
    pub starred: Option<i64>,
}

/// An artist with its albums and counts.
#[derive(Debug)]
pub struct ArtistInfoResponse {
    pub id: i32,
    pub name: String,
    pub sort_name: Option<String>,
    pub album_count: i64,
    pub song_count: i64,
    pub play_count: i64,
    pub starred: Option<i64>,
    pub albums: Vec<AlbumSummary>,
}

/// An artist as listed.
#[derive(Debug)]
pub struct ArtistListItem {
    pub id: i32,
    pub name: String,
    pub sort_name: Option<String>,
    pub album_count: i64,
    pub song_count: i64,
    pub cover_url: String,
    pub starred: Option<i64>,
}

/// A song of an artist.
#[derive(Debug)]
pub struct SongListItem {
    pub id: i32,
    pub title: String,
    pub artist_id: i32,
    pub album_id: Option<i32>,
    pub track_number: Option<i32>,
    pub disc_number: Option<i32>,
    pub duration_secs: i32,
    pub bit_rate: Option<i32>,
    pub size_bytes: Option<i64>,
    pub file_format: Option<String>,
    pub content_type: Option<String>,
    pub year: Option<i32>,
    pub has_cover_art: i32,
    pub starred: Option<i64>,
}

/// The page and name pattern of the artist listing.
#[derive(Debug)]
pub struct ArtistListPlan {
    pub limit: u64,
    pub offset: u64,
    /// A `LIKE` pattern on the name: the leading text followed by `%`.
    pub name_pattern: Option<String>,
}

/// Plans the artist listing: page size from `limit` (default 50, clamped to
/// `[1, 500]`), offset from `offset` (default 0, at least 0), and, for a
/// non-empty `letter`, names beginning with it.
pub fn plan_artist_list(req: &ArtistListRequest) -> (p: ArtistListPlan)
    ensures
        p.limit as int == clamp(
            match req.limit {
                Some(l) => l as int,
                None => 50,
            },
            1,
            500,
        ),
        p.offset as int == (match req.offset {
            Some(o) => if o < 0 {
                0
            } else {
                o as int
            },
            None => 0,
        }),
        match req.letter {
            Some(l) => if l@.len() > 0 {
                p.name_pattern matches Some(pat) && pat@ == l@ + "%"@
            } else {
                p.name_pattern is None
            },
            None => p.name_pattern is None,
        },
{
    let name_pattern = match &req.letter {
        Some(l) => if l.as_str().is_empty() {
            None
        } else {
            Some(l.clone().concat("%"))
        },
        None => None,
    };
    ArtistListPlan {
        limit: page_limit(req.limit, 50, 500),
        offset: page_offset(req.offset),
        name_pattern,
    }
}

/// The page of an artist's songs.
pub fn plan_artist_songs(req: &ArtistSongsRequest) -> (r: (u64, u64))
    ensures
        r.0 as int == clamp(
            match req.limit {
                Some(l) => l as int,
                None => 50,
            },
            1,
            500,
        ),
        r.1 as int == (match req.offset {
            Some(o) => if o < 0 {
                0
            } else {
                o as int
            },
            None => 0,
        }),
{
    (page_limit(req.limit, 50, 500), page_offset(req.offset))
}

/// The cover address of an artist: `/api/artist/cover?id=<id>`.
pub fn artist_cover_url(id: i32) -> (u: String)
    ensures
        u@ == "/api/artist/cover?id="@ + decimal(id as int),
{
    crate::error::text("/api/artist/cover?id=").concat(int_to_decimal(id as i64).as_str())
}

/// A listed artist with its counts and the time the user starred it.
pub fn artist_list_item(
    artist: &ArtistRow,
    album_count: i64,
    song_count: i64,
    starred: Option<i64>,
) -> (item: ArtistListItem)
    ensures
        item.id == artist.id && item.name@ == artist.name@,
        opt_str_view(item.sort_name) == opt_str_view(artist.sort_name),
        item.album_count == album_count && item.song_count == song_count,
        item.cover_url@ == "/api/artist/cover?id="@ + decimal(artist.id as int),
        item.starred == starred,
{
    ArtistListItem {
        id: artist.id,
        name: artist.name.clone(),
        sort_name: copy_opt(&artist.sort_name),
        album_count,
        song_count,
        cover_url: artist_cover_url(artist.id),
        starred,
    }
}

/// An album of an artist with the totals of its songs.
pub fn album_summary(album: &AlbumRow, songs: &Vec<SongRow>, starred: Option<i64>) -> (s:
    AlbumSummary)
    requires
        songs@.len() < 4294967296,
    ensures
        s.id == album.id && s.name@ == album.name@ && s.year == album.year,
        s.song_count == songs@.len() && s.duration_secs == total_duration(songs@),
        s.starred == starred,
{
    let (song_count, duration_secs) = song_totals(songs);
    AlbumSummary {
        id: album.id,
        name: album.name.clone(),
        year: album.year,
        song_count,
        duration_secs,
        starred,
    }
}

/// The info of an artist.
pub fn artist_info_response(
    artist: &ArtistRow,
    album_count: i64,
    song_count: i64,
    play_count: i64,
    starred: Option<i64>,
    albums: Vec<AlbumSummary>,
) -> (r: ArtistInfoResponse)
    ensures
        r.id == artist.id && r.name@ == artist.name@,
        opt_str_view(r.sort_name) == opt_str_view(artist.sort_name),
        r.album_count == album_count && r.song_count == song_count && r.play_count
            == play_count,
        r.starred == starred && r.albums@ == albums@,
{
    ArtistInfoResponse {
        id: artist.id,
        name: artist.name.clone(),
        sort_name: copy_opt(&artist.sort_name),
        album_count,
        song_count,
        play_count,
        starred,
        albums,
    }
}

/// A song of an artist with the time the user starred it.
pub fn song_list_item(song: &SongRow, starred: Option<i64>) -> (s: SongListItem)
    ensures
        s.id == song.id && s.title@ == song.title@ && s.artist_id == song.artist_id,
        s.album_id == song.album_id && s.track_number == song.track_number,
        s.disc_number == song.disc_number && s.duration_secs == song.duration_secs,
        s.bit_rate == song.bit_rate && s.size_bytes == song.size_bytes,
        opt_str_view(s.file_format) == opt_str_view(song.file_format),
        opt_str_view(s.content_type) == opt_str_view(song.content_type),
        s.year == song.year && s.has_cover_art == song.has_cover_art && s.starred == starred,
{
    SongListItem {
        id: song.id,
        title: song.title.clone(),
        artist_id: song.artist_id,
        album_id: song.album_id,
        track_number: song.track_number,
        disc_number: song.disc_number,
        duration_secs: song.duration_secs,
        bit_rate: song.bit_rate,
        size_bytes: song.size_bytes,
        file_format: copy_opt(&song.file_format),
        content_type: copy_opt(&song.content_type),
        year: song.year,
        has_cover_art: song.has_cover_art,
        starred,
    }
}

} // verus!
