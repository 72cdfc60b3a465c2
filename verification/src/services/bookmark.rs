//! Bookmarks: a playback position per user, song and device.

use vstd::prelude::*;
use crate::entities::{BookmarkRow, SongRow};
use crate::error::{text, AppError, ErrorKind};
use crate::services::annotation::{opt_view, song_id_list, song_ids};
use crate::services::lookup::{find_pair, last_index_of, pair_ids};
use crate::text::{int_to_decimal, str_equals};

verus! {

/// A bookmark as listed, with its song's title and artist name.
#[derive(Debug)]
pub struct BookmarkItem {
    pub id: i32,
    pub song_id: i32,
    pub title: String,
    pub artist_name: String,
    pub position_ms: i32,
    pub device_id: Option<String>,
    pub updated_at: i64,
}

/// The model of a bookmark item.
pub open spec fn bookmark_view(i: BookmarkItem) -> (i32, i32, Seq<char>, Seq<char>, i32, Option<Seq<char>>, i64) {
    (i.id, i.song_id, i.title@, i.artist_name@, i.position_ms, opt_view(i.device_id), i.updated_at)
}

/// Whether a position lies within a song: not past its end.
pub open spec fn position_fits(position_ms: i32, duration_secs: i32) -> bool {
    position_ms <= duration_secs * 1000
}

/// Checks a position against the song it marks: the song must exist and the
/// position must not exceed the song's duration.
pub fn check_position(song: Option<&SongRow>, position_ms: i32) -> (r: Result<(), AppError>)
    ensures
        match song {
            None => r matches Err(e) && e.kind == ErrorKind::NotFound,
            Some(s) => if position_fits(position_ms, s.duration_secs) {
                r is Ok
            } else {
                r matches Err(e) && e.kind == ErrorKind::ValidationError
            },
        },
{
    let s = match song {
        Some(s) => s,
        None => return Err(AppError::not_found(text("Song not found"))),
    };
    if position_ms as i64 > s.duration_secs as i64 * 1000 {
        let msg = text("Position ").concat(int_to_decimal(position_ms as i64).as_str()).concat(
            "ms exceeds song duration ",
        ).concat(int_to_decimal(s.duration_secs as i64).as_str()).concat("s");
        return Err(AppError::validation_error(msg));
    }
    Ok(())
}

/// The device of a bookmark, as a view.
pub open spec fn device_view(d: Option<&str>) -> Option<Seq<char>> {
    match d {
        Some(s) => Some(s@),
        None => None,
    }
}

/// Whether a bookmark is the one of `user_id` for `song_id` on the device
/// (a bookmark without device when none is given).
pub open spec fn same_slot(b: BookmarkRow, user_id: i32, song_id: i32, device_id: Option<&str>) -> bool {
    b.user_id == user_id && b.song_id == song_id && opt_view(b.device_id) == device_view(device_id)
}

fn same_slot_exec(b: &BookmarkRow, user_id: i32, song_id: i32, device_id: Option<&str>) -> (r: bool)
    ensures
        r == same_slot(*b, user_id, song_id, device_id),
{
    if b.user_id != user_id || b.song_id != song_id {
        return false;
    }
    match (&b.device_id, device_id) {
        (Some(a), Some(d)) => str_equals(a.as_str(), d),
        (None, None) => true,
        _ => false,
    }
}

/// The first bookmark of the user for the song on the device.
pub fn find_bookmark(rows: &Vec<BookmarkRow>, user_id: i32, song_id: i32, device_id: Option<&str>) -> (r:
    Option<usize>)
    ensures
        match r {
            Some(k) => k < rows@.len() && same_slot(rows@[k as int], user_id, song_id, device_id)
                && forall|j: int| 0 <= j < k ==> !same_slot(#[trigger] rows@[j], user_id, song_id, device_id),
            None => forall|j: int|
                0 <= j < rows@.len() ==> !same_slot(#[trigger] rows@[j], user_id, song_id, device_id),
        },
{
    let mut i: usize = 0;
    while i < rows.len()
        invariant
            i <= rows@.len(),
            forall|j: int| 0 <= j < i ==> !same_slot(#[trigger] rows@[j], user_id, song_id, device_id),
        decreases rows@.len() - i,
    {
        if same_slot_exec(&rows[i], user_id, song_id, device_id) {
            return Some(i);
        }
        i += 1;
    }
    None
}

/// Saves a position: an existing bookmark gets the new position and time; a
/// new one is made for the user, song and device otherwise.
pub fn upsert_bookmark(
    existing: Option<BookmarkRow>,
    user_id: i32,
    song_id: i32,
    position_ms: i32,
    device_id: Option<&str>,
    now: i64,
) -> (b: BookmarkRow)
    ensures
        match existing {
            Some(e) => b == BookmarkRow { position_ms, updated_at: now, ..e },
            None => b.id == 0 && b.user_id == user_id && b.song_id == song_id && b.position_ms
                == position_ms && opt_view(b.device_id) == device_view(device_id) && b.updated_at
                == now,
        },
{
    match existing {
        Some(e) => BookmarkRow { position_ms, updated_at: now, ..e },
        None => BookmarkRow {
            id: 0,
            user_id,
            song_id,
            position_ms,
            device_id: match device_id {
                Some(d) => Some(d.to_owned()),
                None => None,
            },
            updated_at: now,
        },
    }
}

/// Checks a deletion: the bookmark must exist and be the user's.
pub fn delete_check(bookmark: Option<BookmarkRow>, user_id: i32) -> (r: Result<i32, AppError>)
    ensures
        match bookmark {
            None => r matches Err(e) && e.kind == ErrorKind::NotFound,
            Some(b) => if b.user_id == user_id {
                r matches Ok(id) && id == b.id
            } else {
                r matches Err(e) && e.kind == ErrorKind::Forbidden
            },
        },
{
    let b = match bookmark {
        Some(b) => b,
        None => return Err(AppError::not_found(text("Bookmark not found"))),
    };
    if b.user_id != user_id {
        return Err(AppError::forbidden(text("Cannot delete another user's bookmark")));
    }
    Ok(b.id)
}

/// Whether a bookmark's song, and that song's artist, are known.
pub open spec fn resolvable(b: BookmarkRow, songs: Seq<SongRow>, artists: Seq<(i32, String)>) -> bool {
    match last_index_of(song_ids(songs), b.song_id) {
        Some(k) => last_index_of(pair_ids(artists), songs[k].artist_id) is Some,
        None => false,
    }
}

/// What a resolvable bookmark is listed as.
pub open spec fn expected_bookmark(b: BookmarkRow, songs: Seq<SongRow>, artists: Seq<(i32, String)>) -> (
    i32,
    i32,
    Seq<char>,
    Seq<char>,
    i32,
    Option<Seq<char>>,
    i64,
) {
    let k = last_index_of(song_ids(songs), b.song_id)->0;
    let a = last_index_of(pair_ids(artists), songs[k].artist_id)->0;
    (b.id, b.song_id, songs[k].title@, artists[a].1@, b.position_ms, opt_view(b.device_id), b.updated_at)
}

/// Lists bookmarks (newest first, as given) with their songs' titles and
/// artists. A bookmark whose song or artist is missing makes the listing
/// fail as not found.
pub fn bookmark_items(bookmarks: &Vec<BookmarkRow>, songs: &Vec<SongRow>, artists: &Vec<(i32, String)>) -> (r:
    Result<Vec<BookmarkItem>, AppError>)
    ensures
        (r is Ok) == (forall|k: int|
            0 <= k < bookmarks@.len() ==> resolvable(#[trigger] bookmarks@[k], songs@, artists@)),
        r matches Err(e) ==> e.kind == ErrorKind::NotFound,
        r matches Ok(items) ==> items@.len() == bookmarks@.len() && forall|k: int|
            0 <= k < bookmarks@.len() ==> bookmark_view(#[trigger] items@[k]) == expected_bookmark(
                bookmarks@[k],
                songs@,
                artists@,
            ),
{
    let sids = song_id_list(songs);
    let mut items: Vec<BookmarkItem> = Vec::new();
    let mut i: usize = 0;
    while i < bookmarks.len()
        invariant
            i <= bookmarks@.len(),
            sids@ == song_ids(songs@),
            items@.len() == i,
            forall|k: int| 0 <= k < i ==> resolvable(#[trigger] bookmarks@[k], songs@, artists@),
            forall|k: int|
                0 <= k < i ==> bookmark_view(#[trigger] items@[k]) == expected_bookmark(
                    bookmarks@[k],
                    songs@,
                    artists@,
                ),
        decreases bookmarks@.len() - i,
    {
        let bm = &bookmarks[i];
        let k = match crate::services::lookup::find_last(&sids, bm.song_id) {
            Some(k) => k,
            None => {
                let msg = text("Song ").concat(int_to_decimal(bm.song_id as i64).as_str()).concat(
                    " not found",
                );
                assert(!resolvable(bookmarks@[i as int], songs@, artists@));
                return Err(AppError::not_found(msg));
            },
        };
        let song = &songs[k];
        let a = match find_pair(artists, song.artist_id) {
            Some(a) => a,
            None => {
                let msg = text("Artist ").concat(int_to_decimal(song.artist_id as i64).as_str()).concat(
                    " not found",
                );
                assert(!resolvable(bookmarks@[i as int], songs@, artists@));
                return Err(AppError::not_found(msg));
            },
        };
        items.push(
            BookmarkItem {
                id: bm.id,
                song_id: bm.song_id,
                title: song.title.clone(),
                artist_name: artists[a].1.clone(),
                position_ms: bm.position_ms,
                device_id: bm.device_id.clone(),
                updated_at: bm.updated_at,
            },
        );
        i += 1;
    }
    Ok(items)
}

} // verus!
