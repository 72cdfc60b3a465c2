//! Playlists: who may see and change one, how song positions are assigned
//! and renumbered, and how listings are assembled.

use vstd::prelude::*;
use crate::entities::{PlaylistRow, PlaylistSongRow, SongRow};
use crate::error::{text, AppError, ErrorKind};
use crate::services::annotation::{opt_view, resolve_song, song_id_list, song_ids, song_info};
use crate::services::lookup::{find_last, last_index_of, lemma_last_index_of, name_for, name_or_default};

verus! {

// ---------------------------------------------------------------------------
// Response types
// ---------------------------------------------------------------------------

/// A playlist as listed: its song count and total duration.
#[derive(Debug)]
pub struct PlaylistSummary {
    pub id: i32,
    pub name: String,
    pub owner_name: String,
    pub is_public: bool,
    pub song_count: i64,
    pub duration_secs: i64,
    pub created_at: i64,
    pub updated_at: i64,
}

/// One song of a playlist with its resolved names and star.
#[derive(Debug)]
pub struct PlaylistSongItem {
    pub position: i32,
    pub song_id: i32,
    pub title: String,
    pub artist_name: String,
    pub album_name: Option<String>,
    pub duration_secs: i32,
    pub starred: Option<i64>,
}

/// The model of a playlist song item.
pub open spec fn song_item_view(i: PlaylistSongItem) -> (
    i32,
    i32,
    Seq<char>,
    Seq<char>,
    Option<Seq<char>>,
    i32,
    Option<i64>,
) {
    (i.position, i.song_id, i.title@, i.artist_name@, opt_view(i.album_name), i.duration_secs, i.starred)
}

// ---------------------------------------------------------------------------
// Access
// ---------------------------------------------------------------------------

/// Whether a user may see a playlist: it is theirs or it is public.
pub open spec fn visible_to(p: PlaylistRow, user_id: i32) -> bool {
    p.owner_id == user_id || p.is_public != 0
}

/// Checks that a playlist exists and is visible to the user; a hidden
/// playlist is reported as not found.
pub fn check_visible(playlist: Option<PlaylistRow>, user_id: i32) -> (r: Result<PlaylistRow, AppError>)
    ensures
        match playlist {
            None => r matches Err(e) && e.kind == ErrorKind::NotFound,
            Some(p) => if visible_to(p, user_id) {
                r matches Ok(q) && q == p
            } else {
                r matches Err(e) && e.kind == ErrorKind::NotFound
            },
        },
{
    let p = match playlist {
        Some(p) => p,
        None => return Err(AppError::not_found(text("Playlist not found"))),
    };
    if p.owner_id != user_id && p.is_public == 0 {
        return Err(AppError::not_found(text("Playlist not found")));
    }
    Ok(p)
}

/// Checks that a playlist exists and belongs to the user, before any change.
pub fn check_owner(playlist: Option<PlaylistRow>, owner_id: i32) -> (r: Result<PlaylistRow, AppError>)
    ensures
        match playlist {
            None => r matches Err(e) && e.kind == ErrorKind::NotFound,
            Some(p) => if p.owner_id == owner_id {
                r matches Ok(q) && q == p
            } else {
                r matches Err(e) && e.kind == ErrorKind::Forbidden
            },
        },
{
    let p = match playlist {
        Some(p) => p,
        None => return Err(AppError::not_found(text("Playlist not found"))),
    };
    if p.owner_id != owner_id {
        return Err(AppError::forbidden(text("You do not own this playlist")));
    }
    Ok(p)
}

/// The stored form of a public flag.
pub open spec fn public_flag(is_public: bool) -> i32 {
    if is_public { 1 } else { 0 }
}

/// A new playlist of `owner_id`, made at `now`.
pub fn new_playlist(owner_id: i32, name: &str, comment: Option<&str>, is_public: bool, now: i64) -> (p: PlaylistRow)
    ensures
        p.id == 0 && p.owner_id == owner_id && p.name@ == name@,
        opt_view(p.comment) == (match comment {
            Some(c) => Some(c@),
            None => None::<Seq<char>>,
        }),
        p.is_public == public_flag(is_public),
        p.created_at == now && p.updated_at == now,
{
    PlaylistRow {
        id: 0,
        name: name.to_owned(),
        owner_id,
        comment: match comment {
            Some(c) => Some(c.to_owned()),
            None => None,
        },
        is_public: if is_public { 1 } else { 0 },
        created_at: now,
        updated_at: now,
    }
}

/// A playlist after an edit: each given field replaces the stored one
/// (`Some(None)` clears the comment), and the playlist is marked updated at
/// `now`.
pub fn update_playlist(
    p: PlaylistRow,
    name: Option<String>,
    comment: Option<Option<String>>,
    is_public: Option<bool>,
    now: i64,
) -> (q: PlaylistRow)
    ensures
        q == (PlaylistRow {
            name: match name {
                Some(n) => n,
                None => p.name,
            },
            comment: match comment {
                Some(c) => c,
                None => p.comment,
            },
            is_public: match is_public {
                Some(b) => public_flag(b),
                None => p.is_public,
            },
            updated_at: now,
            ..p
        }),
{
    let name = match name {
        Some(n) => n,
        None => p.name,
    };
    let comment = match comment {
        Some(c) => c,
        None => p.comment,
    };
    let is_public = match is_public {
        Some(b) => if b { 1 } else { 0 },
        None => p.is_public,
    };
    PlaylistRow { name, comment, is_public, updated_at: now, ..p }
}

// ---------------------------------------------------------------------------
// Positions
// ---------------------------------------------------------------------------

/// The entries that place `song_ids`, in order, after position `start`: the
/// song at index `i` gets position `start + 1 + i`.
pub open spec fn placed(playlist_id: i32, song_ids: Seq<i32>, start: int, now: i64) -> Seq<PlaylistSongRow> {
    Seq::new(
        song_ids.len(),
        |i: int|
            PlaylistSongRow {
                playlist_id,
                song_id: song_ids[i],
                position: (start + 1 + i) as i32,
                added_at: now,
            },
    )
}

/// Places songs after position `start` (0 for a new or reordered playlist,
/// the current last position when appending).
pub fn place_songs(playlist_id: i32, song_ids: &Vec<i32>, start: i32, now: i64) -> (entries: Vec<
    PlaylistSongRow,
>)
    requires
        start + song_ids@.len() <= i32::MAX,
    ensures
        entries@ == placed(playlist_id, song_ids@, start as int, now),
{
    let mut entries: Vec<PlaylistSongRow> = Vec::new();
    let mut i: usize = 0;
    while i < song_ids.len()
        invariant
            i <= song_ids@.len(),
            start + song_ids@.len() <= i32::MAX,
            entries@ =~= placed(playlist_id, song_ids@, start as int, now).take(i as int),
        decreases song_ids@.len() - i,
    {
        let pos: i32 = (start as i64 + 1 + i as i64) as i32;
        entries.push(PlaylistSongRow { playlist_id, song_id: song_ids[i], position: pos, added_at: now });
        i += 1;
    }
    entries
}

/// The last position in a playlist's entries, or 0 for an empty playlist.
pub open spec fn max_position_of(entries: Seq<PlaylistSongRow>) -> int
    decreases entries.len(),
{
    if entries.len() == 0 {
        0
    } else if entries.len() == 1 {
        entries[0].position as int
    } else {
        let m = max_position_of(entries.drop_last());
        if entries.last().position > m {
            entries.last().position as int
        } else {
            m
        }
    }
}

/// Every position is at most `max_position_of`, which is one of them (or 0).
pub proof fn lemma_max_position(entries: Seq<PlaylistSongRow>)
    ensures
        forall|k: int| 0 <= k < entries.len() ==> entries[k].position <= max_position_of(entries),
        i32::MIN <= max_position_of(entries) <= i32::MAX,
    decreases entries.len(),
{
    if entries.len() > 1 {
        lemma_max_position(entries.drop_last());
        assert forall|k: int| 0 <= k < entries.len() implies entries[k].position <= max_position_of(
            entries,
        ) by {
            if k < entries.len() - 1 {
                assert(entries[k] == entries.drop_last()[k]);
            }
        }
    }
}

/// The highest position among a playlist's entries, 0 when it has none.
pub fn max_position(entries: &Vec<PlaylistSongRow>) -> (m: i32)
    ensures
        m == max_position_of(entries@),
{
    let mut m: i32 = 0;
    let mut i: usize = 0;
    while i < entries.len()
        invariant
            i <= entries@.len(),
            m == max_position_of(entries@.take(i as int)),
        decreases entries@.len() - i,
    {
        assert(entries@.take(i as int + 1).drop_last() =~= entries@.take(i as int));
        let p = entries[i].position;
        if i == 0 || p > m {
            m = p;
        }
        i += 1;
    }
    assert(entries@.take(i as int) =~= entries@);
    m
}

/// Songs appended to a playlist come after every song already in it, in the
/// order given.
pub proof fn lemma_append_after_existing(
    entries: Seq<PlaylistSongRow>,
    playlist_id: i32,
    song_ids: Seq<i32>,
    now: i64,
)
    requires
        max_position_of(entries) + song_ids.len() <= i32::MAX,
    ensures
        forall|j: int, k: int|
            0 <= j < entries.len() && 0 <= k < song_ids.len() ==> (#[trigger] entries[j]).position < #[trigger] placed(
                playlist_id,
                song_ids,
                max_position_of(entries),
                now,
            )[k].position,
        forall|k: int, l: int|
            0 <= k < l < song_ids.len() ==> #[trigger] placed(
                playlist_id,
                song_ids,
                max_position_of(entries),
                now,
            )[k].position < #[trigger] placed(playlist_id, song_ids, max_position_of(entries), now)[l].position,
{
    lemma_max_position(entries);
}

/// The entries left after removing every entry of a song in `removed`, in
/// their order.
pub open spec fn kept(entries: Seq<PlaylistSongRow>, removed: Seq<i32>) -> Seq<PlaylistSongRow>
    decreases entries.len(),
{
    if entries.len() == 0 {
        Seq::empty()
    } else {
        kept(entries.drop_last(), removed) + if removed.contains(entries.last().song_id) {
            Seq::empty()
        } else {
            seq![entries.last()]
        }
    }
}

/// Entries renumbered 1, 2, ... in their order.
pub open spec fn renumbered(entries: Seq<PlaylistSongRow>) -> Seq<PlaylistSongRow> {
    Seq::new(entries.len(), |i: int| PlaylistSongRow { position: (i + 1) as i32, ..entries[i] })
}

/// What `kept` keeps: exactly the entries whose song was not removed.
pub proof fn lemma_kept(entries: Seq<PlaylistSongRow>, removed: Seq<i32>)
    ensures
        kept(entries, removed).len() <= entries.len(),
        forall|k: int|
            0 <= k < kept(entries, removed).len() ==> !removed.contains(
                #[trigger] kept(entries, removed)[k].song_id,
            ) && entries.contains(kept(entries, removed)[k]),
        forall|k: int|
            0 <= k < entries.len() && !removed.contains(entries[k].song_id) ==> kept(
                entries,
                removed,
            ).contains(#[trigger] entries[k]),
    decreases entries.len(),
{
    if entries.len() > 0 {
        let init = entries.drop_last();
        lemma_kept(init, removed);
        let a = kept(init, removed);
        let b: Seq<PlaylistSongRow> = if removed.contains(entries.last().song_id) {
            Seq::empty()
        } else {
            seq![entries.last()]
        };
        assert(kept(entries, removed) == a + b);
        assert forall|k: int| 0 <= k < kept(entries, removed).len() implies !removed.contains(
            #[trigger] kept(entries, removed)[k].song_id,
        ) && entries.contains(kept(entries, removed)[k]) by {
            if k < a.len() {
                assert(kept(entries, removed)[k] == a[k]);
                assert(!removed.contains(a[k].song_id));
                assert(init.contains(a[k]));
                let j = choose|j: int| 0 <= j < init.len() && init[j] == a[k];
                assert(entries[j] == init[j]);
            } else {
                assert(kept(entries, removed)[k] == entries.last());
                assert(entries[entries.len() - 1] == entries.last());
            }
        }
        assert forall|k: int| 0 <= k < entries.len() && !removed.contains(entries[k].song_id) implies kept(
            entries,
            removed,
        ).contains(#[trigger] entries[k]) by {
            if k < entries.len() - 1 {
                assert(entries[k] == init[k]);
                assert(a.contains(init[k]));
                let j = choose|j: int| 0 <= j < a.len() && a[j] == init[k];
                assert((a + b)[j] == a[j]);
            } else {
                assert((a + b)[a.len() as int] == entries.last());
            }
        }
    }
}

/// After a removal, no removed song is left, every other entry is, and the
/// positions run 1, 2, ... in order.
pub proof fn lemma_removal_renumbers(entries: Seq<PlaylistSongRow>, removed: Seq<i32>)
    requires
        entries.len() <= i32::MAX,
    ensures
        forall|k: int|
            0 <= k < renumbered(kept(entries, removed)).len() ==> !removed.contains(
                #[trigger] renumbered(kept(entries, removed))[k].song_id,
            ) && renumbered(kept(entries, removed))[k].position == k + 1,
        forall|k: int|
            0 <= k < entries.len() && !removed.contains(entries[k].song_id) ==> exists|j: int|
                0 <= j < renumbered(kept(entries, removed)).len() && #[trigger] renumbered(
                    kept(entries, removed),
                )[j].song_id == #[trigger] entries[k].song_id,
{
    lemma_kept(entries, removed);
    let r = renumbered(kept(entries, removed));
    assert forall|k: int| 0 <= k < entries.len() && !removed.contains(entries[k].song_id) implies exists|
        j: int,
    |
        0 <= j < r.len() && #[trigger] r[j].song_id == #[trigger] entries[k].song_id by {
        assert(kept(entries, removed).contains(entries[k]));
        let j = choose|j: int|
            0 <= j < kept(entries, removed).len() && kept(entries, removed)[j] == entries[k];
        assert(r[j].song_id == entries[k].song_id);
    }
}

fn contains_id(ids: &Vec<i32>, id: i32) -> (b: bool)
    ensures
        b == ids@.contains(id),
{
    let mut i: usize = 0;
    while i < ids.len()
        invariant
            i <= ids@.len(),
            forall|j: int| 0 <= j < i ==> ids@[j] != id,
        decreases ids@.len() - i,
    {
        if ids[i] == id {
            return true;
        }
        i += 1;
    }
    false
}

/// Removes the entries of the given songs and renumbers the rest from 1 in
/// their order (the entries come ordered by position).
pub fn remove_and_renumber(entries: &Vec<PlaylistSongRow>, song_ids: &Vec<i32>) -> (r: Vec<
    PlaylistSongRow,
>)
    requires
        entries@.len() <= i32::MAX,
    ensures
        r@ == renumbered(kept(entries@, song_ids@)),
{
    let mut rest: Vec<PlaylistSongRow> = Vec::new();
    let mut i: usize = 0;
    while i < entries.len()
        invariant
            i <= entries@.len(),
            rest@ == kept(entries@.take(i as int), song_ids@),
        decreases entries@.len() - i,
    {
        assert(entries@.take(i as int + 1).drop_last() =~= entries@.take(i as int));
        let e = &entries[i];
        if !contains_id(song_ids, e.song_id) {
            rest.push(
                PlaylistSongRow {
                    playlist_id: e.playlist_id,
                    song_id: e.song_id,
                    position: e.position,
                    added_at: e.added_at,
                },
            );
            assert(rest@ =~= kept(entries@.take(i as int + 1), song_ids@));
        } else {
            assert(rest@ =~= kept(entries@.take(i as int + 1), song_ids@));
        }
        i += 1;
    }
    assert(entries@.take(i as int) =~= entries@);
    proof {
        lemma_kept(entries@, song_ids@);
    }
    let mut out: Vec<PlaylistSongRow> = Vec::new();
    let mut j: usize = 0;
    while j < rest.len()
        invariant
            j <= rest@.len(),
            rest@.len() <= i32::MAX,
            out@ =~= renumbered(rest@).take(j as int),
        decreases rest@.len() - j,
    {
        let e = &rest[j];
        let pos: i32 = j as i32 + 1;
        out.push(
            PlaylistSongRow {
                playlist_id: e.playlist_id,
                song_id: e.song_id,
                position: pos,
                added_at: e.added_at,
            },
        );
        j += 1;
    }
    assert(renumbered(rest@).take(j as int) =~= renumbered(rest@));
    out
}

// ---------------------------------------------------------------------------
// Listings
// ---------------------------------------------------------------------------

/// The song ids of (song id, starred at) pairs.
pub open spec fn star_ids(stars: Seq<(i32, i64)>) -> Seq<i32> {
    stars.map_values(|p: (i32, i64)| p.0)
}

/// When the user starred song `id` (the last pair for it wins).
pub open spec fn starred_for(stars: Seq<(i32, i64)>, id: i32) -> Option<i64> {
    match last_index_of(star_ids(stars), id) {
        Some(k) => Some(stars[k].1),
        None => None,
    }
}

/// The song ids of (song id, duration) pairs.
pub open spec fn duration_ids(durations: Seq<(i32, i32)>) -> Seq<i32> {
    durations.map_values(|p: (i32, i32)| p.0)
}

/// The duration of song `id`, 0 when it is unknown.
pub open spec fn duration_for(durations: Seq<(i32, i32)>, id: i32) -> int {
    match last_index_of(duration_ids(durations), id) {
        Some(k) => durations[k].1 as int,
        None => 0,
    }
}

/// The duration of song `id` among song rows, 0 when it is unknown.
pub open spec fn song_duration(songs: Seq<SongRow>, id: i32) -> i32 {
    match last_index_of(song_ids(songs), id) {
        Some(k) => songs[k].duration_secs,
        None => 0,
    }
}

/// The number of entries of playlist `pid`.
pub open spec fn song_count_in(entries: Seq<PlaylistSongRow>, pid: i32) -> int
    decreases entries.len(),
{
    if entries.len() == 0 {
        0
    } else {
        song_count_in(entries.drop_last(), pid) + if entries.last().playlist_id == pid {
            1int
        } else {
            0int
        }
    }
}

/// The summed duration of the songs of playlist `pid`.
pub open spec fn duration_in(entries: Seq<PlaylistSongRow>, durations: Seq<(i32, i32)>, pid: i32) -> int
    decreases entries.len(),
{
    if entries.len() == 0 {
        0
    } else {
        duration_in(entries.drop_last(), durations, pid) + if entries.last().playlist_id == pid {
            duration_for(durations, entries.last().song_id)
        } else {
            0int
        }
    }
}

proof fn lemma_duration_for_bound(durations: Seq<(i32, i32)>, id: i32)
    ensures
        i32::MIN <= duration_for(durations, id) <= i32::MAX,
{
    lemma_last_index_of(duration_ids(durations), id);
}

proof fn lemma_stats_bound(entries: Seq<PlaylistSongRow>, durations: Seq<(i32, i32)>, pid: i32)
    ensures
        0 <= song_count_in(entries, pid) <= entries.len(),
        -(entries.len() * 2147483648) <= duration_in(entries, durations, pid) <= entries.len()
            * 2147483648,
    decreases entries.len(),
{
    if entries.len() > 0 {
        lemma_stats_bound(entries.drop_last(), durations, pid);
        lemma_duration_for_bound(durations, entries.last().song_id);
    }
}

fn star_id_list(stars: &Vec<(i32, i64)>) -> (ids: Vec<i32>)
    ensures
        ids@ == star_ids(stars@),
{
    let mut ids: Vec<i32> = Vec::new();
    let mut j: usize = 0;
    while j < stars.len()
        invariant
            j <= stars@.len(),
            ids@ == star_ids(stars@.take(j as int)),
        decreases stars@.len() - j,
    {
        ids.push(stars[j].0);
        assert(star_ids(stars@.take(j as int + 1)) =~= star_ids(stars@.take(j as int)).push(
            stars@[j as int].0,
        ));
        j += 1;
    }
    assert(stars@.take(j as int) =~= stars@);
    ids
}

fn duration_id_list(durations: &Vec<(i32, i32)>) -> (ids: Vec<i32>)
    ensures
        ids@ == duration_ids(durations@),
{
    let mut ids: Vec<i32> = Vec::new();
    let mut j: usize = 0;
    while j < durations.len()
        invariant
            j <= durations@.len(),
            ids@ == duration_ids(durations@.take(j as int)),
        decreases durations@.len() - j,
    {
        ids.push(durations[j].0);
        assert(duration_ids(durations@.take(j as int + 1)) =~= duration_ids(
            durations@.take(j as int),
        ).push(durations@[j as int].0));
        j += 1;
    }
    assert(durations@.take(j as int) =~= durations@);
    ids
}

/// Counts the songs of playlist `playlist_id` and sums their durations
/// (a song of unknown duration counts for 0 seconds).
pub fn playlist_stats(entries: &Vec<PlaylistSongRow>, durations: &Vec<(i32, i32)>, playlist_id: i32) -> (r: (
    i64,
    i64,
))
    requires
        entries@.len() < 4294967296,
    ensures
        r.0 == song_count_in(entries@, playlist_id),
        r.1 == duration_in(entries@, durations@, playlist_id),
{
    let ids = duration_id_list(durations);
    let mut count: i64 = 0;
    let mut total: i64 = 0;
    let mut i: usize = 0;
    while i < entries.len()
        invariant
            i <= entries@.len(),
            entries@.len() < 4294967296,
            ids@ == duration_ids(durations@),
            count == song_count_in(entries@.take(i as int), playlist_id),
            total == duration_in(entries@.take(i as int), durations@, playlist_id),
        decreases entries@.len() - i,
    {
        let ghost t = entries@.take(i as int + 1);
        assert(t.drop_last() =~= entries@.take(i as int));
        proof {
            lemma_stats_bound(t, durations@, playlist_id);
        }
        let e = &entries[i];
        if e.playlist_id == playlist_id {
            count = count + 1;
            match find_last(&ids, e.song_id) {
                Some(k) => {
                    total = total + durations[k].1 as i64;
                },
                None => {},
            }
        }
        i += 1;
    }
    assert(entries@.take(i as int) =~= entries@);
    (count, total)
}

/// The model of a playlist summary.
pub open spec fn summary_view(s: PlaylistSummary) -> (i32, Seq<char>, Seq<char>, bool, int, int, i64, i64) {
    (
        s.id,
        s.name@,
        s.owner_name@,
        s.is_public,
        s.song_count as int,
        s.duration_secs as int,
        s.created_at,
        s.updated_at,
    )
}

/// What a playlist's summary holds: its owner's name (empty when unknown),
/// whether it is public, and its song count and total duration.
pub open spec fn expected_summary(
    p: PlaylistRow,
    owner_names: Seq<(i32, String)>,
    entries: Seq<PlaylistSongRow>,
    durations: Seq<(i32, i32)>,
) -> (i32, Seq<char>, Seq<char>, bool, int, int, i64, i64) {
    (
        p.id,
        p.name@,
        name_for(owner_names, p.owner_id),
        p.is_public != 0,
        song_count_in(entries, p.id),
        duration_in(entries, durations, p.id),
        p.created_at,
        p.updated_at,
    )
}

/// Summarises one playlist.
pub fn playlist_summary(
    p: &PlaylistRow,
    owner_names: &Vec<(i32, String)>,
    entries: &Vec<PlaylistSongRow>,
    durations: &Vec<(i32, i32)>,
) -> (s: PlaylistSummary)
    requires
        entries@.len() < 4294967296,
    ensures
        summary_view(s) == expected_summary(*p, owner_names@, entries@, durations@),
{
    let (song_count, duration_secs) = playlist_stats(entries, durations, p.id);
    PlaylistSummary {
        id: p.id,
        name: p.name.clone(),
        owner_name: name_or_default(owner_names, p.owner_id),
        is_public: p.is_public != 0,
        song_count,
        duration_secs,
        created_at: p.created_at,
        updated_at: p.updated_at,
    }
}

/// Summarises each visible playlist, in order.
pub fn playlist_summaries(
    playlists: &Vec<PlaylistRow>,
    owner_names: &Vec<(i32, String)>,
    entries: &Vec<PlaylistSongRow>,
    durations: &Vec<(i32, i32)>,
) -> (out: Vec<PlaylistSummary>)
    requires
        entries@.len() < 4294967296,
    ensures
        out@.len() == playlists@.len(),
        forall|k: int|
            0 <= k < playlists@.len() ==> summary_view(#[trigger] out@[k]) == expected_summary(
                playlists@[k],
                owner_names@,
                entries@,
                durations@,
            ),
{
    let mut out: Vec<PlaylistSummary> = Vec::new();
    let mut i: usize = 0;
    while i < playlists.len()
        invariant
            i <= playlists@.len(),
            entries@.len() < 4294967296,
            out@.len() == i,
            forall|k: int|
                0 <= k < i ==> summary_view(#[trigger] out@[k]) == expected_summary(
                    playlists@[k],
                    owner_names@,
                    entries@,
                    durations@,
                ),
        decreases playlists@.len() - i,
    {
        out.push(playlist_summary(&playlists[i], owner_names, entries, durations));
        i += 1;
    }
    out
}

/// What a playlist entry is listed as: its song's title, artist and album
/// names and duration (empty or 0 for an unknown song) and the user's star.
pub open spec fn expected_song_item(
    e: PlaylistSongRow,
    songs: Seq<SongRow>,
    artists: Seq<(i32, String)>,
    albums: Seq<(i32, String)>,
    stars: Seq<(i32, i64)>,
) -> (i32, i32, Seq<char>, Seq<char>, Option<Seq<char>>, i32, Option<i64>) {
    (
        e.position,
        e.song_id,
        song_info(songs, artists, albums, e.song_id).0,
        song_info(songs, artists, albums, e.song_id).1,
        song_info(songs, artists, albums, e.song_id).2,
        song_duration(songs, e.song_id),
        starred_for(stars, e.song_id),
    )
}

/// Lists a playlist's entries (ordered by position) with their songs.
pub fn playlist_song_items(
    entries: &Vec<PlaylistSongRow>,
    songs: &Vec<SongRow>,
    artists: &Vec<(i32, String)>,
    albums: &Vec<(i32, String)>,
    stars: &Vec<(i32, i64)>,
) -> (items: Vec<PlaylistSongItem>)
    ensures
        items@.len() == entries@.len(),
        forall|k: int|
            0 <= k < entries@.len() ==> song_item_view(#[trigger] items@[k]) == expected_song_item(
                entries@[k],
                songs@,
                artists@,
                albums@,
                stars@,
            ),
{
    let sids = song_id_list(songs);
    let stids = star_id_list(stars);
    let mut items: Vec<PlaylistSongItem> = Vec::new();
    let mut i: usize = 0;
    while i < entries.len()
        invariant
            i <= entries@.len(),
            sids@ == song_ids(songs@),
            stids@ == star_ids(stars@),
            items@.len() == i,
            forall|k: int|
                0 <= k < i ==> song_item_view(#[trigger] items@[k]) == expected_song_item(
                    entries@[k],
                    songs@,
                    artists@,
                    albums@,
                    stars@,
                ),
        decreases entries@.len() - i,
    {
        let e = &entries[i];
        let (title, artist_name, album_name) = resolve_song(songs, artists, albums, e.song_id);
        let duration_secs = match find_last(&sids, e.song_id) {
            Some(k) => songs[k].duration_secs,
            None => 0,
        };
        let starred = match find_last(&stids, e.song_id) {
            Some(k) => Some(stars[k].1),
            None => None,
        };
        items.push(
            PlaylistSongItem {
                position: e.position,
                song_id: e.song_id,
                title,
                artist_name,
                album_name,
                duration_secs,
                starred,
            },
        );
        i += 1;
    }
    items
}

} // verus!
