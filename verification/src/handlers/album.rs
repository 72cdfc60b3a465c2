//! Albums: request and response types, the album aggregates and the plan of
//! the album listings.

use vstd::prelude::*;
use vstd::string::*;
use crate::entities::{AlbumRow, SongRow};
use crate::error::{AppError, ErrorKind};
use crate::handlers::paging::{
    artist_and_year_range, artist_and_years, artist_only, clamp, page_limit, page_offset,
    ListFilter,
};
use crate::text::{decimal, int_to_decimal, str_equals};

verus! {

/// An album id.
#[derive(Debug)]
pub struct IdRequest {
    pub id: i32,
}

/// A request for an album listing; `list_type` is the `type` field.
#[derive(Debug)]
pub struct AlbumListRequest {
    pub list_type: String,
    pub artist_id: Option<i32>,
    pub year_from: Option<i32>,
    pub year_to: Option<i32>,
    pub offset: Option<i32>,
    pub limit: Option<i32>,
}

/// A cover request.
#[derive(Debug)]
pub struct CoverQuery {
    pub id: i32,
    pub size: Option<i32>,
}

/// A song of an album.
#[derive(Debug)]
pub struct SongSummary {
    pub id: i32,
    pub title: String,
    pub artist_id: i32,
    pub album_id: Option<i32>,
    pub track_number: Option<i32>,
    pub disc_number: Option<i32>,
    pub duration_secs: i32,
    pub bit_rate: Option<i32>,
    pub year: Option<i32>,
    pub has_cover_art: i32,
    pub starred: Option<i64>,
}

/// An album with its songs.
#[derive(Debug)]
pub struct AlbumInfoResponse {
    pub id: i32,
    pub name: String,
    pub artist_id: i32,
    pub artist_name: String,
    pub year: Option<i32>,
    pub song_count: i64,
    pub duration_secs: i64,
    pub created_at: i64,
    pub starred: Option<i64>,
    pub songs: Vec<SongSummary>,
}

/// An album as listed.
#[derive(Debug)]
pub struct AlbumListItem {
    pub id: i32,
    pub name: String,
    pub artist_id: i32,
    pub artist_name: String,
    pub year: Option<i32>,
    pub song_count: i64,
    pub duration_secs: i64,
    pub created_at: i64,
    pub starred: Option<i64>,
    pub cover_url: String,
}

/// The summed duration of `songs`, in seconds.
pub open spec fn total_duration(songs: Seq<SongRow>) -> int
    decreases songs.len(),
{
    if songs.len() == 0 {
        0
    } else {
        total_duration(songs.drop_last()) + songs.last().duration_secs
    }
}

/// The number of songs and their summed duration.
pub fn song_totals(songs: &Vec<SongRow>) -> (r: (i64, i64))
    requires
        songs@.len() < 4294967296,
    ensures
        r.0 == songs@.len(),
        r.1 == total_duration(songs@),
{
    let mut total: i64 = 0;
    let mut i: usize = 0;
    while i < songs.len()
        invariant
            i <= songs@.len() < 4294967296,
            total == total_duration(songs@.take(i as int)),
            -2147483648 * i <= total <= 2147483647 * i,
        decreases songs@.len() - i,
    {
        assert(songs@.take(i as int + 1).drop_last() =~= songs@.take(i as int));
        total = total + songs[i].duration_secs as i64;
        i += 1;
    }
    assert(songs@.take(i as int) =~= songs@);
    (songs.len() as i64, total)
}

/// The cover address of an album: `/api/album/cover?id=<id>`.
pub fn album_cover_url(id: i32) -> (u: String)
    ensures
        u@ == "/api/album/cover?id="@ + decimal(id as int),
{
    crate::error::text("/api/album/cover?id=").concat(int_to_decimal(id as i64).as_str())
}

/// A listed album: its row, artist name, the totals of its songs, the time
/// the user starred it and its cover address.
pub fn album_list_item(
    album: &AlbumRow,
    artist_name: String,
    songs: &Vec<SongRow>,
    starred: Option<i64>,
) -> (item: AlbumListItem)
    requires
        songs@.len() < 4294967296,
    ensures
        item.id == album.id && item.name@ == album.name@ && item.artist_id == album.artist_id,
        item.artist_name@ == artist_name@ && item.year == album.year,
        item.song_count == songs@.len() && item.duration_secs == total_duration(songs@),
        item.created_at == album.created_at && item.starred == starred,
        item.cover_url@ == "/api/album/cover?id="@ + decimal(album.id as int),
{
    let (song_count, duration_secs) = song_totals(songs);
    AlbumListItem {
        id: album.id,
        name: album.name.clone(),
        artist_id: album.artist_id,
        artist_name,
        year: album.year,
        song_count,
        duration_secs,
        created_at: album.created_at,
        starred,
        cover_url: album_cover_url(album.id),
    }
}

/// A song of an album with the time the user starred it.
pub fn song_summary(song: &SongRow, starred: Option<i64>) -> (s: SongSummary)
    ensures
        s.id == song.id && s.title@ == song.title@ && s.artist_id == song.artist_id,
        s.album_id == song.album_id && s.track_number == song.track_number,
        s.disc_number == song.disc_number && s.duration_secs == song.duration_secs,
        s.bit_rate == song.bit_rate && s.year == song.year,
        s.has_cover_art == song.has_cover_art && s.starred == starred,
{
    SongSummary {
        id: song.id,
        title: song.title.clone(),
        artist_id: song.artist_id,
        album_id: song.album_id,
        track_number: song.track_number,
        disc_number: song.disc_number,
        duration_secs: song.duration_secs,
        bit_rate: song.bit_rate,
        year: song.year,
        has_cover_art: song.has_cover_art,
        starred,
    }
}

/// The info of an album: its row, artist name, the totals of its songs, the
/// time the user starred it and the listed songs.
pub fn album_info_response(
    album: &AlbumRow,
    artist_name: String,
    songs: &Vec<SongRow>,
    starred: Option<i64>,
    summaries: Vec<SongSummary>,
) -> (r: AlbumInfoResponse)
    requires
        songs@.len() < 4294967296,
    ensures
        r.id == album.id && r.name@ == album.name@ && r.artist_id == album.artist_id,
        r.artist_name@ == artist_name@ && r.year == album.year,
        r.song_count == songs@.len() && r.duration_secs == total_duration(songs@),
        r.created_at == album.created_at && r.starred == starred,
        r.songs@ == summaries@,
{
    let (song_count, duration_secs) = song_totals(songs);
    AlbumInfoResponse {
        id: album.id,
        name: album.name.clone(),
        artist_id: album.artist_id,
        artist_name,
        year: album.year,
        song_count,
        duration_secs,
        created_at: album.created_at,
        starred,
        songs: summaries,
    }
}

/// The album listings.
#[derive(Clone, Copy, Debug, PartialEq, Eq, Structural)]
pub enum AlbumListKind {
    Newest,
    Recent,
    Frequent,
    Random,
    AlphabeticalByName,
    AlphabeticalByArtist,
    Starred,
    ByYear,
}

/// The listing a `type` names.
pub open spec fn album_kind_of(t: Seq<char>) -> Option<AlbumListKind> {
    if t == "newest"@ {
        Some(AlbumListKind::Newest)
    } else if t == "recent"@ {
        Some(AlbumListKind::Recent)
    } else if t == "frequent"@ {
        Some(AlbumListKind::Frequent)
    } else if t == "random"@ {
        Some(AlbumListKind::Random)
    } else if t == "alphabeticalByName"@ {
        Some(AlbumListKind::AlphabeticalByName)
    } else if t == "alphabeticalByArtist"@ {
        Some(AlbumListKind::AlphabeticalByArtist)
    } else if t == "starred"@ {
        Some(AlbumListKind::Starred)
    } else if t == "byYear"@ {
        Some(AlbumListKind::ByYear)
    } else {
        None
    }
}

/// The `type` name of each listing.
pub open spec fn album_kind_name(k: AlbumListKind) -> Seq<char> {
    match k {
        AlbumListKind::Newest => "newest"@,
        AlbumListKind::Recent => "recent"@,
        AlbumListKind::Frequent => "frequent"@,
        AlbumListKind::Random => "random"@,
        AlbumListKind::AlphabeticalByName => "alphabeticalByName"@,
        AlbumListKind::AlphabeticalByArtist => "alphabeticalByArtist"@,
        AlbumListKind::Starred => "starred"@,
        AlbumListKind::ByYear => "byYear"@,
    }
}

/// A `type` names a listing exactly when it is that listing's own name: each
/// name picks its own listing, no two names pick the same one, and any other
/// text picks none.
pub proof fn lemma_album_kind_of_names(t: Seq<char>, k: AlbumListKind)
    ensures
        album_kind_of(t) == Some(k) <==> t == album_kind_name(k),
        album_kind_of(t) is None <==> forall|j: AlbumListKind| t != #[trigger] album_kind_name(j),
{
    reveal_strlit("newest");
    reveal_strlit("recent");
    reveal_strlit("frequent");
    reveal_strlit("random");
    reveal_strlit("alphabeticalByName");
    reveal_strlit("alphabeticalByArtist");
    reveal_strlit("starred");
    reveal_strlit("byYear");
    assert("newest"@[0] != "recent"@[0]);
    assert("newest"@.len() != "frequent"@.len());
    assert("newest"@[0] != "random"@[0]);
    assert("newest"@.len() != "alphabeticalByName"@.len());
    assert("newest"@.len() != "alphabeticalByArtist"@.len());
    assert("newest"@.len() != "starred"@.len());
    assert("newest"@[0] != "byYear"@[0]);
    assert("recent"@.len() != "frequent"@.len());
    assert("recent"@[1] != "random"@[1]);
    assert("recent"@.len() != "alphabeticalByName"@.len());
    assert("recent"@.len() != "alphabeticalByArtist"@.len());
    assert("recent"@.len() != "starred"@.len());
    assert("recent"@[0] != "byYear"@[0]);
    assert("frequent"@.len() != "random"@.len());
    assert("frequent"@.len() != "alphabeticalByName"@.len());
    assert("frequent"@.len() != "alphabeticalByArtist"@.len());
    assert("frequent"@.len() != "starred"@.len());
    assert("frequent"@.len() != "byYear"@.len());
    assert("random"@.len() != "alphabeticalByName"@.len());
    assert("random"@.len() != "alphabeticalByArtist"@.len());
    assert("random"@.len() != "starred"@.len());
    assert("random"@[0] != "byYear"@[0]);
    assert("alphabeticalByName"@.len() != "alphabeticalByArtist"@.len());
    assert("alphabeticalByName"@.len() != "starred"@.len());
    assert("alphabeticalByName"@.len() != "byYear"@.len());
    assert("alphabeticalByArtist"@.len() != "starred"@.len());
    assert("alphabeticalByArtist"@.len() != "byYear"@.len());
    assert("starred"@.len() != "byYear"@.len());
    assert(album_kind_name(AlbumListKind::Newest) == "newest"@);
    assert(album_kind_of("newest"@) == Some(AlbumListKind::Newest));
    assert(album_kind_name(AlbumListKind::Recent) == "recent"@);
    assert(album_kind_of("recent"@) == Some(AlbumListKind::Recent));
    assert(album_kind_name(AlbumListKind::Frequent) == "frequent"@);
    assert(album_kind_of("frequent"@) == Some(AlbumListKind::Frequent));
    assert(album_kind_name(AlbumListKind::Random) == "random"@);
    assert(album_kind_of("random"@) == Some(AlbumListKind::Random));
    assert(album_kind_name(AlbumListKind::AlphabeticalByName) == "alphabeticalByName"@);
    assert(album_kind_of("alphabeticalByName"@) == Some(AlbumListKind::AlphabeticalByName));
    assert(album_kind_name(AlbumListKind::AlphabeticalByArtist) == "alphabeticalByArtist"@);
    assert(album_kind_of("alphabeticalByArtist"@) == Some(AlbumListKind::AlphabeticalByArtist));
    assert(album_kind_name(AlbumListKind::Starred) == "starred"@);
    assert(album_kind_of("starred"@) == Some(AlbumListKind::Starred));
    assert(album_kind_name(AlbumListKind::ByYear) == "byYear"@);
    assert(album_kind_of("byYear"@) == Some(AlbumListKind::ByYear));
    assert forall|j: AlbumListKind| album_kind_of(t) is None implies t != #[trigger] album_kind_name(j) by {
        if t == album_kind_name(j) {
            assert(album_kind_of(t) == Some(j));
        }
    }
    if album_kind_of(t) == Some(k) {
        match k {
            AlbumListKind::Newest => {},
            AlbumListKind::Recent => {},
            AlbumListKind::Frequent => {},
            AlbumListKind::Random => {},
            AlbumListKind::AlphabeticalByName => {},
            AlbumListKind::AlphabeticalByArtist => {},
            AlbumListKind::Starred => {},
            AlbumListKind::ByYear => {},
        }
    }
}


/// Reads the listing a `type` names.
pub fn album_kind(t: &str) -> (k: Option<AlbumListKind>)
    ensures
        k == album_kind_of(t@),
{
    if str_equals(t, "newest") {
        Some(AlbumListKind::Newest)
    } else if str_equals(t, "recent") {
        Some(AlbumListKind::Recent)
    } else if str_equals(t, "frequent") {
        Some(AlbumListKind::Frequent)
    } else if str_equals(t, "random") {
        Some(AlbumListKind::Random)
    } else if str_equals(t, "alphabeticalByName") {
        Some(AlbumListKind::AlphabeticalByName)
    } else if str_equals(t, "alphabeticalByArtist") {
        Some(AlbumListKind::AlphabeticalByArtist)
    } else if str_equals(t, "starred") {
        Some(AlbumListKind::Starred)
    } else if str_equals(t, "byYear") {
        Some(AlbumListKind::ByYear)
    } else {
        None
    }
}

/// What an album listing queries: the listing, the page, the albums it
/// selects and the albums its total counts (the total of a starred listing
/// counts the user's starred albums instead).
#[derive(Debug)]
pub struct AlbumListPlan {
    pub kind: AlbumListKind,
    pub limit: u64,
    pub offset: u64,
    pub items: ListFilter,
    pub count: ListFilter,
}

/// Plans an album listing: page size from `limit` (default 50, clamped to
/// `[1, 500]`), offset from `offset` (default 0, at least 0); the recent and
/// frequent listings filter by artist only, the by-year listing and its total
/// by artist and a year range defaulting to `[0, 9999]`, every other listing
/// and total by artist and the requested years. An unknown `type` is a
/// validation error.
pub fn plan_album_list(req: &AlbumListRequest) -> (r: Result<AlbumListPlan, AppError>)
    ensures
        album_kind_of(req.list_type@) is None <==> r is Err,
        r matches Err(e) ==> e.kind == ErrorKind::ValidationError && e.message@ == "Unknown album list type: "@
            + req.list_type@,
        r matches Ok(p) ==> {
            &&& Some(p.kind) == album_kind_of(req.list_type@)
            &&& p.limit as int == clamp(
                match req.limit {
                    Some(l) => l as int,
                    None => 50,
                },
                1,
                500,
            )
            &&& p.offset as int == (match req.offset {
                Some(o) => if o < 0 {
                    0
                } else {
                    o as int
                },
                None => 0,
            })
            &&& p.items.artist_id == req.artist_id
            &&& p.count.artist_id == req.artist_id
            &&& (p.kind == AlbumListKind::Recent || p.kind == AlbumListKind::Frequent
                || p.kind == AlbumListKind::Starred) ==> (p.items.year_min is None
                && p.items.year_max is None)
            &&& p.kind == AlbumListKind::ByYear ==> {
                &&& p.items.year_min == Some(
                    match req.year_from {
                        Some(y) => y,
                        None => 0i32,
                    },
                )
                &&& p.items.year_max == Some(
                    match req.year_to {
                        Some(y) => y,
                        None => 9999i32,
                    },
                )
                &&& p.count.year_min == p.items.year_min
                &&& p.count.year_max == p.items.year_max
            }
            &&& p.kind != AlbumListKind::ByYear ==> (p.count.year_min == req.year_from
                && p.count.year_max == req.year_to)
            &&& (p.kind == AlbumListKind::Newest || p.kind == AlbumListKind::Random || p.kind
                == AlbumListKind::AlphabeticalByName || p.kind
                == AlbumListKind::AlphabeticalByArtist) ==> (p.items.year_min == req.year_from
                && p.items.year_max == req.year_to)
        },
{
    let kind = match album_kind(req.list_type.as_str()) {
        Some(k) => k,
        None => {
            let msg = crate::error::text("Unknown album list type: ").concat(
                req.list_type.as_str(),
            );
            return Err(AppError::validation_error(msg));
        },
    };
    let limit = page_limit(req.limit, 50, 500);
    let offset = page_offset(req.offset);
    let items = match kind {
        AlbumListKind::Recent | AlbumListKind::Frequent | AlbumListKind::Starred => artist_only(
            req.artist_id,
        ),
        AlbumListKind::ByYear => artist_and_year_range(req.artist_id, req.year_from, req.year_to),
        _ => artist_and_years(req.artist_id, req.year_from, req.year_to),
    };
    let count = match kind {
        AlbumListKind::ByYear => artist_and_year_range(req.artist_id, req.year_from, req.year_to),
        _ => artist_and_years(req.artist_id, req.year_from, req.year_to),
    };
    Ok(AlbumListPlan { kind, limit, offset, items, count })
}

} // verus!
