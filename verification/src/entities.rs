//! Plain models of the database rows the rules read. The server converts
//! each row it loads into one of these before handing it to the library.

use vstd::prelude::*;

verus! {

/// A user account (`users`).
#[derive(Debug)]
pub struct UserRow {
    pub id: i32,
    pub username: String,
    pub password_hash: String,
    pub email: Option<String>,
    /// JSON object of privilege flags.
    pub privs: String,
    pub scrobbling_enabled: i32,
    pub max_bit_rate: i32,
    pub is_enabled: i32,
    pub created_at: i64,
    pub updated_at: i64,
}

/// A login session (`sessions`).
#[derive(Debug)]
pub struct SessionRow {
    pub id: String,
    pub user_id: i32,
    pub token: String,
    pub device_info: Option<String>,
    pub created_at: i64,
    pub last_used_at: i64,
    pub expires_at: i64,
}

/// A music library (`libraries`).
#[derive(Debug)]
pub struct LibraryRow {
    pub id: i32,
    pub name: String,
    pub path: String,
    pub is_enabled: i32,
    pub watch_enabled: i32,
    pub created_at: i64,
}

/// A user's per-library switch (`user_libraries`).
#[derive(Debug)]
pub struct UserLibraryRow {
    pub user_id: i32,
    pub library_id: i32,
    pub is_enabled: i32,
}

/// An artist (`artists`).
#[derive(Debug)]
pub struct ArtistRow {
    pub id: i32,
    pub name: String,
    pub sort_name: Option<String>,
    pub library_id: i32,
    pub created_at: i64,
}

/// An album (`albums`).
#[derive(Debug)]
pub struct AlbumRow {
    pub id: i32,
    pub name: String,
    pub artist_id: i32,
    pub library_id: i32,
    pub year: Option<i32>,
    pub created_at: i64,
}

/// A song (`songs`).
#[derive(Debug)]
pub struct SongRow {
    pub id: i32,
    pub title: String,
    pub artist_id: i32,
    pub album_id: Option<i32>,
    pub track_number: Option<i32>,
    pub disc_number: Option<i32>,
    pub duration_secs: i32,
    pub bit_rate: Option<i32>,
    pub size_bytes: Option<i64>,
    pub file_format: Option<String>,
    pub content_type: Option<String>,
    pub year: Option<i32>,
    pub file_path: String,
    pub has_cover_art: i32,
    pub library_id: i32,
    pub created_at: i64,
}

/// A star on an artist, album or song (`stars`).
#[derive(Debug)]
pub struct StarRow {
    pub user_id: i32,
    pub item_type: String,
    pub item_id: i32,
    pub starred_at: i64,
}

/// A rating of an album or song (`ratings`).
#[derive(Debug)]
pub struct RatingRow {
    pub user_id: i32,
    pub item_type: String,
    pub item_id: i32,
    pub rating: i32,
    pub rated_at: i64,
}

/// A play of a song (`scrobbles`); `submission` is 1 for a completed play
/// and 0 for a now-playing notice.
#[derive(Debug)]
pub struct ScrobbleRow {
    pub id: i32,
    pub user_id: i32,
    pub song_id: i32,
    pub submission: i32,
    pub played_at: i64,
}

/// A playback position (`bookmarks`).
#[derive(Debug)]
pub struct BookmarkRow {
    pub id: i32,
    pub user_id: i32,
    pub song_id: i32,
    pub position_ms: i32,
    pub device_id: Option<String>,
    pub updated_at: i64,
}

/// A public share link (`shares`).
#[derive(Debug)]
pub struct ShareRow {
    pub id: i32,
    pub owner_id: i32,
    pub item_type: String,
    pub item_id: i32,
    pub description: Option<String>,
    pub token: String,
    pub visit_count: i32,
    pub last_visited_at: Option<i64>,
    pub expires_at: Option<i64>,
    pub created_at: i64,
}

/// A playlist (`playlists`).
#[derive(Debug)]
pub struct PlaylistRow {
    pub id: i32,
    pub name: String,
    pub owner_id: i32,
    pub comment: Option<String>,
    pub is_public: i32,
    pub created_at: i64,
    pub updated_at: i64,
}

/// A song's place in a playlist (`playlist_songs`).
#[derive(Debug)]
pub struct PlaylistSongRow {
    pub playlist_id: i32,
    pub song_id: i32,
    pub position: i32,
    pub added_at: i64,
}

/// Stored cover art (`cover_art`).
#[derive(Debug)]
pub struct CoverArtRow {
    pub id: i32,
    pub item_type: String,
    pub item_id: i32,
    pub mime_type: String,
    pub width: Option<i32>,
    pub height: Option<i32>,
    pub file_path: Option<String>,
}

} // verus!
