//! Stars, ratings and scrobbles: the rules of each annotation and the
//! assembly of the starred, rated and history listings.

use vstd::prelude::*;
use crate::entities::{AlbumRow, RatingRow, ScrobbleRow, SongRow, StarRow};
use crate::error::{AppError, ErrorKind};
use crate::services::lookup::{
    find_last, last_index_of, name_for, name_if_any, name_or_default, opt_name_for,
};

verus! {

// ---------------------------------------------------------------------------
// Result types
// ---------------------------------------------------------------------------

/// A starred artist, album or song with its resolved names.
#[derive(Debug)]
pub struct StarredItem {
    pub id: i32,
    pub name: String,
    pub artist_name: Option<String>,
    pub album_name: Option<String>,
    pub starred_at: i64,
}

/// The starred items of a user, grouped by type.
#[derive(Debug)]
pub struct StarredResults {
    pub artists: Vec<StarredItem>,
    pub albums: Vec<StarredItem>,
    pub songs: Vec<StarredItem>,
    pub artist_total: u64,
    pub album_total: u64,
    pub song_total: u64,
}

/// A rated album or song with its resolved names.
#[derive(Debug)]
pub struct RatedItem {
    pub id: i32,
    pub name: String,
    pub artist_name: Option<String>,
    pub rating: i32,
    pub rated_at: i64,
}

/// The rated items of a user, grouped by type.
#[derive(Debug)]
pub struct RatedResults {
    pub songs: Vec<RatedItem>,
    pub albums: Vec<RatedItem>,
    pub song_total: u64,
    pub album_total: u64,
}

/// One play in a user's history.
#[derive(Debug)]
pub struct HistoryEntry {
    pub id: i32,
    pub song_id: i32,
    pub title: String,
    pub artist_name: String,
    pub album_name: Option<String>,
    pub played_at: i64,
}

/// A page of a user's history with the total number of plays.
#[derive(Debug)]
pub struct HistoryResults {
    pub entries: Vec<HistoryEntry>,
    pub total: u64,
}

/// The model of a starred item: id, name, artist name, album name, time.
pub open spec fn starred_view(i: StarredItem) -> (
    i32,
    Seq<char>,
    Option<Seq<char>>,
    Option<Seq<char>>,
    i64,
) {
    (i.id, i.name@, opt_view(i.artist_name), opt_view(i.album_name), i.starred_at)
}

/// The model of a rated item: id, name, artist name, rating, time.
pub open spec fn rated_view(i: RatedItem) -> (i32, Seq<char>, Option<Seq<char>>, i32, i64) {
    (i.id, i.name@, opt_view(i.artist_name), i.rating, i.rated_at)
}

/// The model of a history entry.
pub open spec fn history_view(e: HistoryEntry) -> (
    i32,
    i32,
    Seq<char>,
    Seq<char>,
    Option<Seq<char>>,
    i64,
) {
    (e.id, e.song_id, e.title@, e.artist_name@, opt_view(e.album_name), e.played_at)
}

/// The view of an optional owned string.
pub open spec fn opt_view(o: Option<String>) -> Option<Seq<char>> {
    match o {
        Some(s) => Some(s@),
        None => None,
    }
}

// ---------------------------------------------------------------------------
// Annotation rules
// ---------------------------------------------------------------------------

/// Whether a rating value is accepted.
pub open spec fn rating_in_range(rating: i32) -> bool {
    1 <= rating <= 5
}

/// Checks a rating: accepted from 1 to 5, otherwise a validation error.
pub fn validate_rating(rating: i32) -> (r: Result<i32, AppError>)
    ensures
        rating_in_range(rating) <==> r is Ok,
        r matches Ok(v) ==> v == rating,
        r matches Err(e) ==> e.kind == ErrorKind::ValidationError,
{
    if 1 <= rating && rating <= 5 {
        Ok(rating)
    } else {
        Err(AppError::validation_error(crate::error::text("Rating must be between 1 and 5")))
    }
}

/// What toggling a star does.
#[derive(Debug)]
pub enum StarAction {
    /// The existing star is removed; the item is no longer starred.
    Remove,
    /// A star is added; the item is now starred.
    Insert,
}

/// What toggling picks: remove an existing star, add a missing one, and
/// whether the item is starred afterwards.
pub open spec fn toggle_action_of(already_starred: bool) -> (StarAction, bool) {
    if already_starred {
        (StarAction::Remove, false)
    } else {
        (StarAction::Insert, true)
    }
}

/// Toggling removes an existing star and adds a missing one; the flag tells
/// whether the item is starred afterwards.
pub fn toggle_star_action(already_starred: bool) -> (r: (StarAction, bool))
    ensures
        already_starred ==> r.0 is Remove && !r.1,
        !already_starred ==> r.0 is Insert && r.1,
        r == toggle_action_of(already_starred),
{
    if already_starred {
        (StarAction::Remove, false)
    } else {
        (StarAction::Insert, true)
    }
}

/// A star's key: user, item type and item.
pub type StarKey = (i32, Seq<char>, i32);

/// The starred keys after toggling `key`: removed when starred, added when
/// not.
pub open spec fn toggled(starred: Set<StarKey>, key: StarKey) -> Set<StarKey> {
    if starred.contains(key) {
        starred.remove(key)
    } else {
        starred.insert(key)
    }
}

/// The starred keys after carrying out a toggle's action on `key`.
pub open spec fn apply_star_action(starred: Set<StarKey>, key: StarKey, action: StarAction) -> Set<
    StarKey,
> {
    match action {
        StarAction::Remove => starred.remove(key),
        StarAction::Insert => starred.insert(key),
    }
}

/// The action a toggle picks carries out the toggle, and its flag tells
/// whether the key is starred afterwards.
pub proof fn lemma_toggle_action_toggles(starred: Set<StarKey>, key: StarKey)
    ensures
        ({
            let (action, now_starred) = toggle_action_of(starred.contains(key));
            &&& apply_star_action(starred, key, action) == toggled(starred, key)
            &&& now_starred == toggled(starred, key).contains(key)
        }),
{
    assert(toggled(starred, key).contains(key) == !starred.contains(key));
}

/// Toggling a star twice restores the starred keys, and a toggle leaves
/// every other key as it was.
pub proof fn lemma_toggle_twice(starred: Set<StarKey>, key: StarKey)
    ensures
        toggled(toggled(starred, key), key) == starred,
        toggled(starred, key).contains(key) == !starred.contains(key),
        forall|other: StarKey| other != key ==> (#[trigger] toggled(starred, key).contains(other)
            == starred.contains(other)),
{
    assert(toggled(toggled(starred, key), key) =~= starred);
}

/// Half-width of the window, in milliseconds, within which a repeated
/// submission of the same song counts as a duplicate.
pub open spec fn dedup_half_window() -> i64 {
    300000
}

/// The window `[played_at - 5 min, played_at + 5 min]` searched for a
/// duplicate submission (wrapping at the ends of `i64`).
pub fn scrobble_dedup_window(played_at: i64) -> (w: (i64, i64))
    ensures
        w.0 == played_at.wrapping_sub(300000),
        w.1 == played_at.wrapping_add(300000),
{
    (played_at.wrapping_sub(300000), played_at.wrapping_add(300000))
}

/// Whether `row` is a submitted play of `song_id` by `user_id` inside the
/// dedup window around `played_at`.
pub open spec fn is_duplicate_play(row: ScrobbleRow, user_id: i32, song_id: i32, played_at: i64) -> bool {
    &&& row.user_id == user_id
    &&& row.song_id == song_id
    &&& row.submission == 1
    &&& played_at.wrapping_sub(300000) <= row.played_at
    &&& row.played_at <= played_at.wrapping_add(300000)
}

/// Away from the ends of `i64` (where the window wraps), a duplicate is
/// exactly a submitted play of the same song by the same user at most five
/// minutes before or after.
pub proof fn lemma_duplicate_within_five_minutes(
    row: ScrobbleRow,
    user_id: i32,
    song_id: i32,
    played_at: i64,
)
    requires
        i64::MIN + 300000 <= played_at <= i64::MAX - 300000,
    ensures
        is_duplicate_play(row, user_id, song_id, played_at) <==> (row.user_id == user_id
            && row.song_id == song_id && row.submission == 1 && -300000 <= row.played_at
            - played_at <= 300000),
{
}

/// Whether a scrobble is recorded: plays that are not submissions always
/// are; a submission is skipped when a duplicate already exists.
pub fn scrobble_should_record(
    existing: &Vec<ScrobbleRow>,
    user_id: i32,
    song_id: i32,
    submission: bool,
    played_at: i64,
) -> (record: bool)
    ensures
        record == (!submission || !exists|k: int|
            0 <= k < existing@.len() && is_duplicate_play(
                #[trigger] existing@[k],
                user_id,
                song_id,
                played_at,
            )),
{
    if !submission {
        return true;
    }
    let (lo, hi) = scrobble_dedup_window(played_at);
    let mut i: usize = 0;
    while i < existing.len()
        invariant
            i <= existing@.len(),
            submission,
            lo == played_at.wrapping_sub(300000),
            hi == played_at.wrapping_add(300000),
            forall|k: int|
                0 <= k < i ==> !is_duplicate_play(#[trigger] existing@[k], user_id, song_id, played_at),
        decreases existing@.len() - i,
    {
        let r = &existing[i];
        if r.user_id == user_id && r.song_id == song_id && r.submission == 1 && lo <= r.played_at
            && r.played_at <= hi {
            assert(is_duplicate_play(existing@[i as int], user_id, song_id, played_at));
            assert(exists|k: int|
                0 <= k < existing@.len() && is_duplicate_play(
                    #[trigger] existing@[k],
                    user_id,
                    song_id,
                    played_at,
                ));
            return false;
        }
        i += 1;
    }
    true
}

// ---------------------------------------------------------------------------
// Name resolution
// ---------------------------------------------------------------------------

/// The ids of album rows.
pub open spec fn album_ids(rows: Seq<AlbumRow>) -> Seq<i32> {
    rows.map_values(|r: AlbumRow| r.id)
}

/// The ids of song rows.
pub open spec fn song_ids(rows: Seq<SongRow>) -> Seq<i32> {
    rows.map_values(|r: SongRow| r.id)
}

/// The name and artist name of album `id` (empty names for an unknown album).
pub open spec fn album_info(
    albums: Seq<AlbumRow>,
    artists: Seq<(i32, String)>,
    id: i32,
) -> (Seq<char>, Seq<char>) {
    match last_index_of(album_ids(albums), id) {
        Some(k) => (albums[k].name@, name_for(artists, albums[k].artist_id)),
        None => (Seq::empty(), Seq::empty()),
    }
}

/// The title, artist name and album name of song `id` (empty names for an
/// unknown song).
pub open spec fn song_info(
    songs: Seq<SongRow>,
    artists: Seq<(i32, String)>,
    albums: Seq<(i32, String)>,
    id: i32,
) -> (Seq<char>, Seq<char>, Option<Seq<char>>) {
    match last_index_of(song_ids(songs), id) {
        Some(k) => (
            songs[k].title@,
            name_for(artists, songs[k].artist_id),
            match songs[k].album_id {
                Some(a) => opt_name_for(albums, a),
                None => None,
            },
        ),
        None => (Seq::empty(), Seq::empty(), None),
    }
}

fn album_id_list(albums: &Vec<AlbumRow>) -> (ids: Vec<i32>)
    ensures
        ids@ == album_ids(albums@),
{
    let mut ids: Vec<i32> = Vec::new();
    let mut j: usize = 0;
    while j < albums.len()
        invariant
            j <= albums@.len(),
            ids@ == album_ids(albums@.take(j as int)),
        decreases albums@.len() - j,
    {
        ids.push(albums[j].id);
        assert(album_ids(albums@.take(j as int + 1)) =~= album_ids(albums@.take(j as int)).push(
            albums@[j as int].id,
        ));
        j += 1;
    }
    assert(albums@.take(j as int) =~= albums@);
    ids
}

pub(crate) fn song_id_list(songs: &Vec<SongRow>) -> (ids: Vec<i32>)
    ensures
        ids@ == song_ids(songs@),
{
    let mut ids: Vec<i32> = Vec::new();
    let mut j: usize = 0;
    while j < songs.len()
        invariant
            j <= songs@.len(),
            ids@ == song_ids(songs@.take(j as int)),
        decreases songs@.len() - j,
    {
        ids.push(songs[j].id);
        assert(song_ids(songs@.take(j as int + 1)) =~= song_ids(songs@.take(j as int)).push(
            songs@[j as int].id,
        ));
        j += 1;
    }
    assert(songs@.take(j as int) =~= songs@);
    ids
}

/// Resolves the name and artist name of album `id`.
pub fn resolve_album(albums: &Vec<AlbumRow>, artists: &Vec<(i32, String)>, id: i32) -> (r: (
    String,
    String,
))
    ensures
        (r.0@, r.1@) == album_info(albums@, artists@, id),
{
    let ids = album_id_list(albums);
    match find_last(&ids, id) {
        Some(k) => (albums[k].name.clone(), name_or_default(artists, albums[k].artist_id)),
        None => (String::new(), String::new()),
    }
}

/// Resolves the title, artist name and album name of song `id`.
pub fn resolve_song(
    songs: &Vec<SongRow>,
    artists: &Vec<(i32, String)>,
    albums: &Vec<(i32, String)>,
    id: i32,
) -> (r: (String, String, Option<String>))
    ensures
        (r.0@, r.1@, opt_view(r.2)) == song_info(songs@, artists@, albums@, id),
{
    let ids = song_id_list(songs);
    match find_last(&ids, id) {
        Some(k) => {
            let album_name = match songs[k].album_id {
                Some(a) => name_if_any(albums, a),
                None => None,
            };
            (songs[k].title.clone(), name_or_default(artists, songs[k].artist_id), album_name)
        },
        None => (String::new(), String::new(), None),
    }
}

// ---------------------------------------------------------------------------
// Listings
// ---------------------------------------------------------------------------

/// Starred artists: each star with the artist's name (empty when unknown).
pub fn starred_artists(stars: &Vec<StarRow>, artists: &Vec<(i32, String)>) -> (items: Vec<
    StarredItem,
>)
    ensures
        items@.len() == stars@.len(),
        forall|k: int|
            0 <= k < stars@.len() ==> starred_view(#[trigger] items@[k]) == (
                stars@[k].item_id,
                name_for(artists@, stars@[k].item_id),
                None::<Seq<char>>,
                None::<Seq<char>>,
                stars@[k].starred_at,
            ),
{
    let mut items: Vec<StarredItem> = Vec::new();
    let mut i: usize = 0;
    while i < stars.len()
        invariant
            i <= stars@.len(),
            items@.len() == i,
            forall|k: int|
                0 <= k < i ==> starred_view(#[trigger] items@[k]) == (
                    stars@[k].item_id,
                    name_for(artists@, stars@[k].item_id),
                    None::<Seq<char>>,
                    None::<Seq<char>>,
                    stars@[k].starred_at,
                ),
        decreases stars@.len() - i,
    {
        let s = &stars[i];
        let name = name_or_default(artists, s.item_id);
        items.push(
            StarredItem {
                id: s.item_id,
                name,
                artist_name: None,
                album_name: None,
                starred_at: s.starred_at,
            },
        );
        i += 1;
    }
    items
}

/// Starred albums: each star with the album's name and artist name.
pub fn starred_albums(
    stars: &Vec<StarRow>,
    albums: &Vec<AlbumRow>,
    artists: &Vec<(i32, String)>,
) -> (items: Vec<StarredItem>)
    ensures
        items@.len() == stars@.len(),
        forall|k: int|
            0 <= k < stars@.len() ==> starred_view(#[trigger] items@[k]) == (
                stars@[k].item_id,
                album_info(albums@, artists@, stars@[k].item_id).0,
                Some(album_info(albums@, artists@, stars@[k].item_id).1),
                None::<Seq<char>>,
                stars@[k].starred_at,
            ),
{
    let mut items: Vec<StarredItem> = Vec::new();
    let mut i: usize = 0;
    while i < stars.len()
        invariant
            i <= stars@.len(),
            items@.len() == i,
            forall|k: int|
                0 <= k < i ==> starred_view(#[trigger] items@[k]) == (
                    stars@[k].item_id,
                    album_info(albums@, artists@, stars@[k].item_id).0,
                    Some(album_info(albums@, artists@, stars@[k].item_id).1),
                    None::<Seq<char>>,
                    stars@[k].starred_at,
                ),
        decreases stars@.len() - i,
    {
        let s = &stars[i];
        let (name, artist_name) = resolve_album(albums, artists, s.item_id);
        items.push(
            StarredItem {
                id: s.item_id,
                name,
                artist_name: Some(artist_name),
                album_name: None,
                starred_at: s.starred_at,
            },
        );
        i += 1;
    }
    items
}

/// Starred songs: each star with the song's title, artist and album names.
pub fn starred_songs(
    stars: &Vec<StarRow>,
    songs: &Vec<SongRow>,
    artists: &Vec<(i32, String)>,
    albums: &Vec<(i32, String)>,
) -> (items: Vec<StarredItem>)
    ensures
        items@.len() == stars@.len(),
        forall|k: int|
            0 <= k < stars@.len() ==> starred_view(#[trigger] items@[k]) == (
                stars@[k].item_id,
                song_info(songs@, artists@, albums@, stars@[k].item_id).0,
                Some(song_info(songs@, artists@, albums@, stars@[k].item_id).1),
                song_info(songs@, artists@, albums@, stars@[k].item_id).2,
                stars@[k].starred_at,
            ),
{
    let mut items: Vec<StarredItem> = Vec::new();
    let mut i: usize = 0;
    while i < stars.len()
        invariant
            i <= stars@.len(),
            items@.len() == i,
            forall|k: int|
                0 <= k < i ==> starred_view(#[trigger] items@[k]) == (
                    stars@[k].item_id,
                    song_info(songs@, artists@, albums@, stars@[k].item_id).0,
                    Some(song_info(songs@, artists@, albums@, stars@[k].item_id).1),
                    song_info(songs@, artists@, albums@, stars@[k].item_id).2,
                    stars@[k].starred_at,
                ),
        decreases stars@.len() - i,
    {
        let s = &stars[i];
        let (title, artist_name, album_name) = resolve_song(songs, artists, albums, s.item_id);
        items.push(
            StarredItem {
                id: s.item_id,
                name: title,
                artist_name: Some(artist_name),
                album_name,
                starred_at: s.starred_at,
            },
        );
        i += 1;
    }
    items
}

/// Rated songs: each rating with the song's title and artist name.
pub fn rated_songs(
    ratings: &Vec<RatingRow>,
    songs: &Vec<SongRow>,
    artists: &Vec<(i32, String)>,
) -> (items: Vec<RatedItem>)
    ensures
        items@.len() == ratings@.len(),
        forall|k: int|
            0 <= k < ratings@.len() ==> rated_view(#[trigger] items@[k]) == (
                ratings@[k].item_id,
                song_info(songs@, artists@, Seq::empty(), ratings@[k].item_id).0,
                Some(song_info(songs@, artists@, Seq::empty(), ratings@[k].item_id).1),
                ratings@[k].rating,
                ratings@[k].rated_at,
            ),
{
    let no_albums: Vec<(i32, String)> = Vec::new();
    let mut items: Vec<RatedItem> = Vec::new();
    let mut i: usize = 0;
    while i < ratings.len()
        invariant
            i <= ratings@.len(),
            items@.len() == i,
            no_albums@ == Seq::<(i32, String)>::empty(),
            forall|k: int|
                0 <= k < i ==> rated_view(#[trigger] items@[k]) == (
                    ratings@[k].item_id,
                    song_info(songs@, artists@, Seq::empty(), ratings@[k].item_id).0,
                    Some(song_info(songs@, artists@, Seq::empty(), ratings@[k].item_id).1),
                    ratings@[k].rating,
                    ratings@[k].rated_at,
                ),
        decreases ratings@.len() - i,
    {
        let r = &ratings[i];
        let (title, artist_name, _album) = resolve_song(songs, artists, &no_albums, r.item_id);
        items.push(
            RatedItem {
                id: r.item_id,
                name: title,
                artist_name: Some(artist_name),
                rating: r.rating,
                rated_at: r.rated_at,
            },
        );
        i += 1;
    }
    items
}

/// Rated albums: each rating with the album's name and artist name.
pub fn rated_albums(
    ratings: &Vec<RatingRow>,
    albums: &Vec<AlbumRow>,
    artists: &Vec<(i32, String)>,
) -> (items: Vec<RatedItem>)
    ensures
        items@.len() == ratings@.len(),
        forall|k: int|
            0 <= k < ratings@.len() ==> rated_view(#[trigger] items@[k]) == (
                ratings@[k].item_id,
                album_info(albums@, artists@, ratings@[k].item_id).0,
                Some(album_info(albums@, artists@, ratings@[k].item_id).1),
                ratings@[k].rating,
                ratings@[k].rated_at,
            ),
{
    let mut items: Vec<RatedItem> = Vec::new();
    let mut i: usize = 0;
    while i < ratings.len()
        invariant
            i <= ratings@.len(),
            items@.len() == i,
            forall|k: int|
                0 <= k < i ==> rated_view(#[trigger] items@[k]) == (
                    ratings@[k].item_id,
                    album_info(albums@, artists@, ratings@[k].item_id).0,
                    Some(album_info(albums@, artists@, ratings@[k].item_id).1),
                    ratings@[k].rating,
                    ratings@[k].rated_at,
                ),
        decreases ratings@.len() - i,
    {
        let r = &ratings[i];
        let (name, artist_name) = resolve_album(albums, artists, r.item_id);
        items.push(
            RatedItem {
                id: r.item_id,
                name,
                artist_name: Some(artist_name),
                rating: r.rating,
                rated_at: r.rated_at,
            },
        );
        i += 1;
    }
    items
}

/// History entries: each play with the song's title, artist and album names.
pub fn history_entries(
    plays: &Vec<ScrobbleRow>,
    songs: &Vec<SongRow>,
    artists: &Vec<(i32, String)>,
    albums: &Vec<(i32, String)>,
) -> (entries: Vec<HistoryEntry>)
    ensures
        entries@.len() == plays@.len(),
        forall|k: int|
            0 <= k < plays@.len() ==> history_view(#[trigger] entries@[k]) == (
                plays@[k].id,
                plays@[k].song_id,
                song_info(songs@, artists@, albums@, plays@[k].song_id).0,
                song_info(songs@, artists@, albums@, plays@[k].song_id).1,
                song_info(songs@, artists@, albums@, plays@[k].song_id).2,
                plays@[k].played_at,
            ),
{
    let mut entries: Vec<HistoryEntry> = Vec::new();
    let mut i: usize = 0;
    while i < plays.len()
        invariant
            i <= plays@.len(),
            entries@.len() == i,
            forall|k: int|
                0 <= k < i ==> history_view(#[trigger] entries@[k]) == (
                    plays@[k].id,
                    plays@[k].song_id,
                    song_info(songs@, artists@, albums@, plays@[k].song_id).0,
                    song_info(songs@, artists@, albums@, plays@[k].song_id).1,
                    song_info(songs@, artists@, albums@, plays@[k].song_id).2,
                    plays@[k].played_at,
                ),
        decreases plays@.len() - i,
    {
        let p = &plays[i];
        let (title, artist_name, album_name) = resolve_song(songs, artists, albums, p.song_id);
        entries.push(
            HistoryEntry {
                id: p.id,
                song_id: p.song_id,
                title,
                artist_name,
                album_name,
                played_at: p.played_at,
            },
        );
        i += 1;
    }
    entries
}

} // verus!
