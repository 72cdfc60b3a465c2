//! Streaming: who may stream a song and how the stream is described.

use vstd::prelude::*;
use crate::entities::{SongRow, UserLibraryRow};
use crate::error::{text, AppError, ErrorKind};

verus! {

/// What a client is sent to stream a song.
#[derive(Debug)]
pub struct StreamInfo {
    pub data: Vec<u8>,
    pub content_type: String,
    pub content_length: u64,
    pub file_name: Option<String>,
}

/// Whether a user's library row grants access: it exists and is enabled.
pub open spec fn grants_access(access: Option<UserLibraryRow>) -> bool {
    access matches Some(ul) && ul.is_enabled != 0
}

/// Whether the user's row for a library grants access to it.
pub fn check_library_access(access: Option<&UserLibraryRow>) -> (b: bool)
    ensures
        b == grants_access(
            match access {
                Some(ul) => Some(*ul),
                None => None,
            },
        ),
{
    match access {
        Some(ul) => ul.is_enabled != 0,
        None => false,
    }
}

/// Checks that the song exists and that the user may reach its library.
pub fn stream_access(song: Option<SongRow>, access: Option<UserLibraryRow>) -> (r: Result<SongRow, AppError>)
    ensures
        match song {
            None => r matches Err(e) && e.kind == ErrorKind::NotFound,
            Some(s) => if grants_access(access) {
                r matches Ok(t) && t == s
            } else {
                r matches Err(e) && e.kind == ErrorKind::Forbidden
            },
        },
{
    let s = match song {
        Some(s) => s,
        None => return Err(AppError::not_found(text("Song not found"))),
    };
    let allowed = match &access {
        Some(ul) => ul.is_enabled != 0,
        None => false,
    };
    if !allowed {
        return Err(AppError::forbidden(text("Access denied to this song's library")));
    }
    Ok(s)
}

/// The download name of a song: "Artist - Title.ext", the extension being
/// the file format or `mp3`.
pub open spec fn download_name(artist: Seq<char>, title: Seq<char>, format: Option<Seq<char>>) -> Seq<char> {
    artist + " - "@ + title + "."@ + match format {
        Some(f) => f,
        None => "mp3"@,
    }
}

/// The content type of a song, `audio/mpeg` when none is stored.
pub open spec fn content_type_of(stored: Option<Seq<char>>) -> Seq<char> {
    match stored {
        Some(c) => c,
        None => "audio/mpeg"@,
    }
}

/// Describes the stream of a song read from disk; `artist_name` is empty when
/// the artist is unknown.
pub fn stream_info(song: &SongRow, artist_name: &str, data: Vec<u8>) -> (i: StreamInfo)
    ensures
        i.data@ == data@,
        i.content_length == data@.len(),
        i.content_type@ == content_type_of(crate::services::annotation::opt_view(song.content_type)),
        i.file_name matches Some(n) && n@ == download_name(
            artist_name@,
            song.title@,
            crate::services::annotation::opt_view(song.file_format),
        ),
{
    let ext: &str = match &song.file_format {
        Some(f) => f.as_str(),
        None => "mp3",
    };
    let name = text(artist_name).concat(" - ").concat(song.title.as_str()).concat(".").concat(ext);
    let content_type = match &song.content_type {
        Some(c) => c.clone(),
        None => text("audio/mpeg"),
    };
    let content_length = data.len() as u64;
    StreamInfo { data, content_type, content_length, file_name: Some(name) }
}

} // verus!
