//! Playlist endpoints: the requests and replies.

use vstd::prelude::*;
use crate::entities::PlaylistRow;
use crate::services::playlist::{song_item_view, PlaylistSongItem};

verus! {

/// Names a playlist.
#[derive(Debug)]
pub struct IdRequest {
    pub id: i32,
}

/// Creates a playlist, private and empty unless told otherwise.
#[derive(Debug)]
pub struct CreatePlaylistRequest {
    pub name: String,
    pub comment: Option<String>,
    pub is_public: Option<bool>,
    pub song_ids: Option<Vec<i32>>,
}

/// Edits a playlist; `Some(None)` clears the comment.
#[derive(Debug)]
pub struct UpdatePlaylistRequest {
    pub id: i32,
    pub name: Option<String>,
    pub comment: Option<Option<String>>,
    pub is_public: Option<bool>,
}

/// Adds songs to, or removes songs from, a playlist.
#[derive(Debug)]
pub struct ModifySongsRequest {
    pub id: i32,
    pub song_ids: Vec<i32>,
}

/// Replaces a playlist's songs with a new order.
#[derive(Debug)]
pub struct ReorderRequest {
    pub id: i32,
    pub song_ids: Vec<i32>,
}

/// Asks for a playlist's cover.
#[derive(Debug)]
pub struct CoverQuery {
    pub id: i32,
    pub size: Option<i32>,
}

/// A playlist with its songs.
#[derive(Debug)]
pub struct PlaylistDetail {
    pub id: i32,
    pub name: String,
    pub owner_id: i32,
    pub comment: Option<String>,
    pub is_public: bool,
    pub songs: Vec<PlaylistSongEntry>,
    pub created_at: i64,
    pub updated_at: i64,
}

/// One song of a playlist in the reply.
#[derive(Debug)]
pub struct PlaylistSongEntry {
    pub position: i32,
    pub song_id: i32,
    pub title: String,
    pub artist_name: String,
    pub album_name: Option<String>,
    pub duration_secs: i32,
    pub starred: Option<i64>,
}

/// The placeholder served as a playlist's cover.
pub const PLAYLIST_COVER_SVG: &'static str = "<svg xmlns='http://www.w3.org/2000/svg' width='300' height='300'><rect width='300' height='300' fill='#2a2a2a'/><text x='150' y='150' text-anchor='middle' dominant-baseline='central'fill='#888' font-family='sans-serif' font-size='18'>No Cover</text></svg>";

/// The settings of a new playlist: private unless asked, with the songs
/// given (none by default).
pub fn create_params(req: CreatePlaylistRequest) -> (r: (bool, Vec<i32>))
    ensures
        r.0 == (match req.is_public {
            Some(b) => b,
            None => false,
        }),
        r.1@ == (match req.song_ids {
            Some(v) => v@,
            None => Seq::<i32>::empty(),
        }),
{
    let is_public = match req.is_public {
        Some(b) => b,
        None => false,
    };
    let song_ids = match req.song_ids {
        Some(v) => v,
        None => Vec::new(),
    };
    (is_public, song_ids)
}

/// The model of a song entry of the reply.
pub open spec fn entry_view(e: PlaylistSongEntry) -> (
    i32,
    i32,
    Seq<char>,
    Seq<char>,
    Option<Seq<char>>,
    i32,
    Option<i64>,
) {
    (
        e.position,
        e.song_id,
        e.title@,
        e.artist_name@,
        crate::services::annotation::opt_view(e.album_name),
        e.duration_secs,
        e.starred,
    )
}

/// A playlist and its songs as the reply presents them (a new or edited
/// playlist is presented without songs).
pub fn playlist_detail(p: PlaylistRow, items: Vec<PlaylistSongItem>) -> (d: PlaylistDetail)
    ensures
        d.id == p.id && d.name == p.name && d.owner_id == p.owner_id && d.comment == p.comment,
        d.is_public == (p.is_public != 0) && d.created_at == p.created_at && d.updated_at
            == p.updated_at,
        d.songs@.len() == items@.len(),
        forall|k: int|
            0 <= k < items@.len() ==> entry_view(#[trigger] d.songs@[k]) == song_item_view(
                items@[k],
            ),
{
    let mut songs: Vec<PlaylistSongEntry> = Vec::new();
    let mut i: usize = 0;
    while i < items.len()
        invariant
            i <= items@.len(),
            songs@.len() == i,
            forall|k: int|
                0 <= k < i ==> entry_view(#[trigger] songs@[k]) == song_item_view(items@[k]),
        decreases items@.len() - i,
    {
        let it = &items[i];
        songs.push(
            PlaylistSongEntry {
                position: it.position,
                song_id: it.song_id,
                title: it.title.clone(),
                artist_name: it.artist_name.clone(),
                album_name: it.album_name.clone(),
                duration_secs: it.duration_secs,
                starred: it.starred,
            },
        );
        i += 1;
    }
    PlaylistDetail {
        id: p.id,
        name: p.name,
        owner_id: p.owner_id,
        comment: p.comment,
        is_public: p.is_public != 0,
        songs,
        created_at: p.created_at,
        updated_at: p.updated_at,
    }
}

} // verus!
