//! Bookmark endpoints: the requests and replies.

use vstd::prelude::*;
use crate::entities::BookmarkRow;
use crate::error::{text, AppError, ErrorKind};

verus! {

/// Looks up the bookmark of a song on a device.
#[derive(Debug)]
pub struct BookmarkGetRequest {
    pub song_id: i32,
    pub device_id: Option<String>,
}

/// Saves a playback position.
#[derive(Debug)]
pub struct BookmarkCreateRequest {
    pub song_id: i32,
    pub position_ms: i32,
    pub device_id: Option<String>,
}

/// Names a bookmark.
#[derive(Debug)]
pub struct IdRequest {
    pub id: i32,
}

/// A bookmark with its song's title and artist, when known.
#[derive(Debug)]
pub struct BookmarkResponse {
    pub id: i32,
    pub user_id: i32,
    pub song_id: i32,
    pub position_ms: i32,
    pub device_id: Option<String>,
    pub updated_at: i64,
    pub song_title: Option<String>,
    pub artist_name: Option<String>,
}

/// The bookmark asked for, which must exist.
pub fn found_bookmark(b: Option<BookmarkRow>) -> (r: Result<BookmarkRow, AppError>)
    ensures
        match b {
            Some(x) => r matches Ok(y) && y == x,
            None => r matches Err(e) && e.kind == ErrorKind::NotFound,
        },
{
    match b {
        Some(x) => Ok(x),
        None => Err(AppError::not_found(text("Bookmark not found"))),
    }
}

} // verus!
