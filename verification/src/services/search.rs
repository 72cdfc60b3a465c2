//! Search: which categories a query covers, the patterns it matches with,
//! and how results and suggestions are assembled.

use vstd::prelude::*;
use crate::entities::{AlbumRow, ArtistRow, SongRow};
use crate::error::text;
use crate::services::annotation::opt_view;
use crate::services::lookup::{name_if_any, name_or_default, name_for, opt_name_for};
use crate::text::str_equals;

verus! {

// ---------------------------------------------------------------------------
// Response types
// ---------------------------------------------------------------------------

/// Search results across artists, albums and songs, with each category's
/// total number of matches.
#[derive(Debug)]
pub struct SearchResults {
    pub artists: Vec<ArtistResult>,
    pub albums: Vec<AlbumResult>,
    pub songs: Vec<SongResult>,
    pub artist_total: u64,
    pub album_total: u64,
    pub song_total: u64,
}

/// A matching artist and how many albums it has.
#[derive(Debug)]
pub struct ArtistResult {
    pub id: i32,
    pub name: String,
    pub album_count: i64,
}

/// A matching album with its artist's name and number of songs.
#[derive(Debug)]
pub struct AlbumResult {
    pub id: i32,
    pub name: String,
    pub artist_name: String,
    pub year: Option<i32>,
    pub song_count: i64,
}

/// A matching song with its artist's and album's names.
#[derive(Debug)]
pub struct SongResult {
    pub id: i32,
    pub title: String,
    pub artist_name: String,
    pub album_name: Option<String>,
    pub track_number: Option<i32>,
    pub duration_secs: i32,
}

/// An auto-complete suggestion; `kind` is its `type` field.
#[derive(Debug)]
pub struct Suggestion {
    pub kind: String,
    pub id: i32,
    pub text: String,
}

// ---------------------------------------------------------------------------
// Scope and patterns
// ---------------------------------------------------------------------------

/// Whether a type filter selects every category: none, or `all`.
pub open spec fn searches_all(type_filter: Option<Seq<char>>) -> bool {
    match type_filter {
        None => true,
        Some(t) => t == "all"@,
    }
}

/// Whether a type filter selects the category `kind`.
pub open spec fn searches(type_filter: Option<Seq<char>>, kind: Seq<char>) -> bool {
    searches_all(type_filter) || type_filter == Some(kind)
}

/// The view of an optional string slice.
pub open spec fn str_opt_view(o: Option<&str>) -> Option<Seq<char>> {
    match o {
        Some(s) => Some(s@),
        None => None,
    }
}

/// Which categories a search covers: artists, albums and songs.
pub fn search_scope(type_filter: Option<&str>) -> (r: (bool, bool, bool))
    ensures
        r.0 == searches(str_opt_view(type_filter), "artist"@),
        r.1 == searches(str_opt_view(type_filter), "album"@),
        r.2 == searches(str_opt_view(type_filter), "song"@),
{
    match type_filter {
        None => (true, true, true),
        Some(t) => {
            if str_equals(t, "all") {
                (true, true, true)
            } else {
                proof {
                    reveal_strlit("all");
                    reveal_strlit("artist");
                    reveal_strlit("album");
                    reveal_strlit("song");
                }
                (str_equals(t, "artist"), str_equals(t, "album"), str_equals(t, "song"))
            }
        },
    }
}

/// Assembles the results of a search: each category the filter covers
/// keeps its matches and total; every other category is empty with a total
/// of 0.
pub fn search_results(
    type_filter: Option<&str>,
    artists: Vec<ArtistResult>,
    artist_total: u64,
    albums: Vec<AlbumResult>,
    album_total: u64,
    songs: Vec<SongResult>,
    song_total: u64,
) -> (r: SearchResults)
    ensures
        searches(str_opt_view(type_filter), "artist"@) ==> r.artists@ == artists@ && r.artist_total
            == artist_total,
        !searches(str_opt_view(type_filter), "artist"@) ==> r.artists@.len() == 0
            && r.artist_total == 0,
        searches(str_opt_view(type_filter), "album"@) ==> r.albums@ == albums@ && r.album_total
            == album_total,
        !searches(str_opt_view(type_filter), "album"@) ==> r.albums@.len() == 0 && r.album_total
            == 0,
        searches(str_opt_view(type_filter), "song"@) ==> r.songs@ == songs@ && r.song_total
            == song_total,
        !searches(str_opt_view(type_filter), "song"@) ==> r.songs@.len() == 0 && r.song_total
            == 0,
{
    let (with_artists, with_albums, with_songs) = search_scope(type_filter);
    SearchResults {
        artists: if with_artists { artists } else { Vec::new() },
        artist_total: if with_artists { artist_total } else { 0 },
        albums: if with_albums { albums } else { Vec::new() },
        album_total: if with_albums { album_total } else { 0 },
        songs: if with_songs { songs } else { Vec::new() },
        song_total: if with_songs { song_total } else { 0 },
    }
}

/// The pattern matching names that contain `query`: `%query%`.
pub fn contains_pattern(query: &str) -> (p: String)
    ensures
        p@ == "%"@ + query@ + "%"@,
{
    text("%").concat(query).concat("%")
}

/// The pattern matching names that start with `query`: `query%`.
pub fn prefix_pattern(query: &str) -> (p: String)
    ensures
        p@ == query@ + "%"@,
{
    text(query).concat("%")
}

// ---------------------------------------------------------------------------
// Results
// ---------------------------------------------------------------------------

/// The number of albums by artist `artist_id`.
pub open spec fn albums_by(albums: Seq<AlbumRow>, artist_id: i32) -> int
    decreases albums.len(),
{
    if albums.len() == 0 {
        0
    } else {
        albums_by(albums.drop_last(), artist_id) + if albums.last().artist_id == artist_id {
            1int
        } else {
            0int
        }
    }
}

/// The number of songs on album `album_id`.
pub open spec fn songs_on(songs: Seq<SongRow>, album_id: i32) -> int
    decreases songs.len(),
{
    if songs.len() == 0 {
        0
    } else {
        songs_on(songs.drop_last(), album_id) + if songs.last().album_id == Some(album_id) {
            1int
        } else {
            0int
        }
    }
}

proof fn lemma_albums_by_bound(albums: Seq<AlbumRow>, artist_id: i32)
    ensures
        0 <= albums_by(albums, artist_id) <= albums.len(),
    decreases albums.len(),
{
    if albums.len() > 0 {
        lemma_albums_by_bound(albums.drop_last(), artist_id);
    }
}

proof fn lemma_songs_on_bound(songs: Seq<SongRow>, album_id: i32)
    ensures
        0 <= songs_on(songs, album_id) <= songs.len(),
    decreases songs.len(),
{
    if songs.len() > 0 {
        lemma_songs_on_bound(songs.drop_last(), album_id);
    }
}

/// Counts the albums of an artist.
pub fn album_count(albums: &Vec<AlbumRow>, artist_id: i32) -> (n: i64)
    requires
        albums@.len() <= i64::MAX,
    ensures
        n == albums_by(albums@, artist_id),
{
    let mut n: i64 = 0;
    let mut i: usize = 0;
    while i < albums.len()
        invariant
            i <= albums@.len(),
            albums@.len() <= i64::MAX,
            n == albums_by(albums@.take(i as int), artist_id),
        decreases albums@.len() - i,
    {
        let ghost t = albums@.take(i as int + 1);
        assert(t.drop_last() =~= albums@.take(i as int));
        proof {
            lemma_albums_by_bound(t, artist_id);
        }
        if albums[i].artist_id == artist_id {
            n = n + 1;
        }
        i += 1;
    }
    assert(albums@.take(i as int) =~= albums@);
    n
}

/// Counts the songs of an album.
pub fn song_count(songs: &Vec<SongRow>, album_id: i32) -> (n: i64)
    requires
        songs@.len() <= i64::MAX,
    ensures
        n == songs_on(songs@, album_id),
{
    let mut n: i64 = 0;
    let mut i: usize = 0;
    while i < songs.len()
        invariant
            i <= songs@.len(),
            songs@.len() <= i64::MAX,
            n == songs_on(songs@.take(i as int), album_id),
        decreases songs@.len() - i,
    {
        let ghost t = songs@.take(i as int + 1);
        assert(t.drop_last() =~= songs@.take(i as int));
        proof {
            lemma_songs_on_bound(t, album_id);
        }
        if songs[i].album_id == Some(album_id) {
            n = n + 1;
        }
        i += 1;
    }
    assert(songs@.take(i as int) =~= songs@);
    n
}

/// The view of an artist result.
pub open spec fn artist_result_view(r: ArtistResult) -> (i32, Seq<char>, int) {
    (r.id, r.name@, r.album_count as int)
}

/// Artist results: each matching artist with its album count among `albums`
/// (the albums of the matching artists).
pub fn artist_results(artists: &Vec<ArtistRow>, albums: &Vec<AlbumRow>) -> (out: Vec<ArtistResult>)
    requires
        albums@.len() <= i64::MAX,
    ensures
        out@.len() == artists@.len(),
        forall|k: int|
            0 <= k < artists@.len() ==> artist_result_view(#[trigger] out@[k]) == (
                artists@[k].id,
                artists@[k].name@,
                albums_by(albums@, artists@[k].id),
            ),
{
    let mut out: Vec<ArtistResult> = Vec::new();
    let mut i: usize = 0;
    while i < artists.len()
        invariant
            i <= artists@.len(),
            albums@.len() <= i64::MAX,
            out@.len() == i,
            forall|k: int|
                0 <= k < i ==> artist_result_view(#[trigger] out@[k]) == (
                    artists@[k].id,
                    artists@[k].name@,
                    albums_by(albums@, artists@[k].id),
                ),
        decreases artists@.len() - i,
    {
        let a = &artists[i];
        out.push(ArtistResult { id: a.id, name: a.name.clone(), album_count: album_count(albums, a.id) });
        i += 1;
    }
    out
}

/// The view of an album result.
pub open spec fn album_result_view(r: AlbumResult) -> (i32, Seq<char>, Seq<char>, Option<i32>, int) {
    (r.id, r.name@, r.artist_name@, r.year, r.song_count as int)
}

/// Album results: each matching album with its artist's name (empty when
/// unknown) and its number of songs among `songs`.
pub fn album_results(albums: &Vec<AlbumRow>, artist_names: &Vec<(i32, String)>, songs: &Vec<SongRow>) -> (out:
    Vec<AlbumResult>)
    requires
        songs@.len() <= i64::MAX,
    ensures
        out@.len() == albums@.len(),
        forall|k: int|
            0 <= k < albums@.len() ==> album_result_view(#[trigger] out@[k]) == (
                albums@[k].id,
                albums@[k].name@,
                name_for(artist_names@, albums@[k].artist_id),
                albums@[k].year,
                songs_on(songs@, albums@[k].id),
            ),
{
    let mut out: Vec<AlbumResult> = Vec::new();
    let mut i: usize = 0;
    while i < albums.len()
        invariant
            i <= albums@.len(),
            songs@.len() <= i64::MAX,
            out@.len() == i,
            forall|k: int|
                0 <= k < i ==> album_result_view(#[trigger] out@[k]) == (
                    albums@[k].id,
                    albums@[k].name@,
                    name_for(artist_names@, albums@[k].artist_id),
                    albums@[k].year,
                    songs_on(songs@, albums@[k].id),
                ),
        decreases albums@.len() - i,
    {
        let a = &albums[i];
        out.push(
            AlbumResult {
                id: a.id,
                name: a.name.clone(),
                artist_name: name_or_default(artist_names, a.artist_id),
                year: a.year,
                song_count: song_count(songs, a.id),
            },
        );
        i += 1;
    }
    out
}

/// The view of a song result.
pub open spec fn song_result_view(r: SongResult) -> (i32, Seq<char>, Seq<char>, Option<Seq<char>>, Option<i32>, i32) {
    (r.id, r.title@, r.artist_name@, opt_view(r.album_name), r.track_number, r.duration_secs)
}

/// The album name of a song, when it has a known album.
pub open spec fn album_name_of(s: SongRow, album_names: Seq<(i32, String)>) -> Option<Seq<char>> {
    match s.album_id {
        Some(a) => opt_name_for(album_names, a),
        None => None,
    }
}

/// Song results: each matching song with its artist's name (empty when
/// unknown) and its album's name.
pub fn song_results(songs: &Vec<SongRow>, artist_names: &Vec<(i32, String)>, album_names: &Vec<(i32, String)>) -> (out:
    Vec<SongResult>)
    ensures
        out@.len() == songs@.len(),
        forall|k: int|
            0 <= k < songs@.len() ==> song_result_view(#[trigger] out@[k]) == (
                songs@[k].id,
                songs@[k].title@,
                name_for(artist_names@, songs@[k].artist_id),
                album_name_of(songs@[k], album_names@),
                songs@[k].track_number,
                songs@[k].duration_secs,
            ),
{
    let mut out: Vec<SongResult> = Vec::new();
    let mut i: usize = 0;
    while i < songs.len()
        invariant
            i <= songs@.len(),
            out@.len() == i,
            forall|k: int|
                0 <= k < i ==> song_result_view(#[trigger] out@[k]) == (
                    songs@[k].id,
                    songs@[k].title@,
                    name_for(artist_names@, songs@[k].artist_id),
                    album_name_of(songs@[k], album_names@),
                    songs@[k].track_number,
                    songs@[k].duration_secs,
                ),
        decreases songs@.len() - i,
    {
        let s = &songs[i];
        let album_name = match s.album_id {
            Some(a) => name_if_any(album_names, a),
            None => None,
        };
        out.push(
            SongResult {
                id: s.id,
                title: s.title.clone(),
                artist_name: name_or_default(artist_names, s.artist_id),
                album_name,
                track_number: s.track_number,
                duration_secs: s.duration_secs,
            },
        );
        i += 1;
    }
    out
}

// ---------------------------------------------------------------------------
// Suggestions
// ---------------------------------------------------------------------------

/// The view of a suggestion: type, id and text.
pub open spec fn suggestion_view(s: Suggestion) -> (Seq<char>, i32, Seq<char>) {
    (s.kind@, s.id, s.text@)
}

/// An artist's name, or `Unknown`.
pub open spec fn name_or_unknown(names: Seq<(i32, String)>, id: i32) -> Seq<char> {
    match opt_name_for(names, id) {
        Some(n) => n,
        None => "Unknown"@,
    }
}

/// The suggestion for an artist.
pub open spec fn artist_suggestion(a: ArtistRow) -> (Seq<char>, i32, Seq<char>) {
    ("artist"@, a.id, a.name@)
}

/// The suggestion for an album: "Artist -- Album".
pub open spec fn album_suggestion(a: AlbumRow, names: Seq<(i32, String)>) -> (Seq<char>, i32, Seq<char>) {
    ("album"@, a.id, name_or_unknown(names, a.artist_id) + " -- "@ + a.name@)
}

/// The suggestion for a song: "Artist -- Title".
pub open spec fn song_suggestion(s: SongRow, names: Seq<(i32, String)>) -> (Seq<char>, i32, Seq<char>) {
    ("song"@, s.id, name_or_unknown(names, s.artist_id) + " -- "@ + s.title@)
}

/// Every suggestion in order: artists, then albums, then songs.
pub open spec fn all_suggestions(
    artists: Seq<ArtistRow>,
    albums: Seq<AlbumRow>,
    album_artists: Seq<(i32, String)>,
    songs: Seq<SongRow>,
    song_artists: Seq<(i32, String)>,
) -> Seq<(Seq<char>, i32, Seq<char>)> {
    artists.map_values(|a: ArtistRow| artist_suggestion(a)) + albums.map_values(
        |a: AlbumRow| album_suggestion(a, album_artists),
    ) + songs.map_values(|s: SongRow| song_suggestion(s, song_artists))
}

fn unknown_or(names: &Vec<(i32, String)>, id: i32) -> (n: String)
    ensures
        n@ == name_or_unknown(names@, id),
{
    match name_if_any(names, id) {
        Some(n) => n,
        None => text("Unknown"),
    }
}

/// Auto-complete suggestions for a prefix query: artists, then albums, then
/// songs, at most `limit` in all; none for an empty query.
pub fn suggestions(
    query: &str,
    artists: &Vec<ArtistRow>,
    albums: &Vec<AlbumRow>,
    album_artists: &Vec<(i32, String)>,
    songs: &Vec<SongRow>,
    song_artists: &Vec<(i32, String)>,
    limit: u64,
) -> (out: Vec<Suggestion>)
    ensures
        query@.len() == 0 ==> out@.len() == 0,
        query@.len() > 0 ==> out@.map_values(|s: Suggestion| suggestion_view(s)) == {
            let all = all_suggestions(artists@, albums@, album_artists@, songs@, song_artists@);
            if limit < all.len() {
                all.take(limit as int)
            } else {
                all
            }
        },
{
    let mut out: Vec<Suggestion> = Vec::new();
    if query.is_empty() {
        return out;
    }
    let ghost a1 = artists@.map_values(|a: ArtistRow| artist_suggestion(a));
    let ghost a2 = albums@.map_values(|a: AlbumRow| album_suggestion(a, album_artists@));
    let ghost a3 = songs@.map_values(|s: SongRow| song_suggestion(s, song_artists@));
    let mut i: usize = 0;
    while i < artists.len()
        invariant
            i <= artists@.len(),
            a1 == artists@.map_values(|a: ArtistRow| artist_suggestion(a)),
            out@.map_values(|s: Suggestion| suggestion_view(s)) =~= a1.take(i as int),
        decreases artists@.len() - i,
    {
        let a = &artists[i];
        let ghost before = out@;
        let sug = Suggestion { kind: text("artist"), id: a.id, text: a.name.clone() };
        assert(suggestion_view(sug) == a1[i as int]);
        out.push(sug);
        assert(out@ =~= before.push(sug));
        assert(out@.map_values(|s: Suggestion| suggestion_view(s)) =~= before.map_values(
            |s: Suggestion| suggestion_view(s),
        ).push(suggestion_view(sug)));
        i += 1;
    }
    assert(a1.take(i as int) =~= a1);
    let mut j: usize = 0;
    while j < albums.len()
        invariant
            j <= albums@.len(),
            a1.len() == artists@.len(),
            a2 == albums@.map_values(|a: AlbumRow| album_suggestion(a, album_artists@)),
            out@.map_values(|s: Suggestion| suggestion_view(s)) =~= a1 + a2.take(j as int),
        decreases albums@.len() - j,
    {
        let a = &albums[j];
        let t = unknown_or(album_artists, a.artist_id).concat(" -- ").concat(a.name.as_str());
        let ghost before = out@;
        let sug = Suggestion { kind: text("album"), id: a.id, text: t };
        assert(suggestion_view(sug) == a2[j as int]);
        out.push(sug);
        assert(out@ =~= before.push(sug));
        assert(out@.map_values(|s: Suggestion| suggestion_view(s)) =~= before.map_values(
            |s: Suggestion| suggestion_view(s),
        ).push(suggestion_view(sug)));
        j += 1;
    }
    assert(a2.take(j as int) =~= a2);
    let mut k: usize = 0;
    while k < songs.len()
        invariant
            k <= songs@.len(),
            a3 == songs@.map_values(|s: SongRow| song_suggestion(s, song_artists@)),
            out@.map_values(|s: Suggestion| suggestion_view(s)) =~= a1 + a2 + a3.take(k as int),
        decreases songs@.len() - k,
    {
        let s = &songs[k];
        let t = unknown_or(song_artists, s.artist_id).concat(" -- ").concat(s.title.as_str());
        let ghost before = out@;
        let sug = Suggestion { kind: text("song"), id: s.id, text: t };
        assert(suggestion_view(sug) == a3[k as int]);
        out.push(sug);
        assert(out@ =~= before.push(sug));
        assert(out@.map_values(|s: Suggestion| suggestion_view(s)) =~= before.map_values(
            |s: Suggestion| suggestion_view(s),
        ).push(suggestion_view(sug)));
        k += 1;
    }
    assert(a3.take(k as int) =~= a3);
    let ghost all = all_suggestions(artists@, albums@, album_artists@, songs@, song_artists@);
    assert(all == a1 + a2 + a3);
    if (out.len() as u64) > limit {
        out.truncate(limit as usize);
        assert(out@.map_values(|s: Suggestion| suggestion_view(s)) =~= all.take(limit as int));
    }
    out
}

} // verus!
