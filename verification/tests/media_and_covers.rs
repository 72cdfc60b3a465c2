use moosic::entities::{AlbumRow, CoverArtRow, SongRow, UserLibraryRow};
use moosic::error::ErrorKind;
use moosic::services::cover::{cover_file, cover_lookups, cover_or_default, DEFAULT_COVER_MIME, DEFAULT_COVER_SVG};
use moosic::services::media::{check_library_access, stream_access, stream_info};

fn song(format: Option<&str>, content_type: Option<&str>) -> SongRow {
    SongRow {
        id: 1,
        title: "Song".to_string(),
        artist_id: 2,
        album_id: Some(3),
        track_number: None,
        disc_number: None,
        duration_secs: 1,
        bit_rate: None,
        size_bytes: None,
        file_format: format.map(|s| s.to_string()),
        content_type: content_type.map(|s| s.to_string()),
        year: None,
        file_path: "/m/s".to_string(),
        has_cover_art: 0,
        library_id: 4,
        created_at: 0,
    }
}

#[test]
fn library_access_needs_an_enabled_row() {
    assert!(!check_library_access(None));
    assert!(!check_library_access(Some(&UserLibraryRow { user_id: 1, library_id: 4, is_enabled: 0 })));
    assert!(check_library_access(Some(&UserLibraryRow { user_id: 1, library_id: 4, is_enabled: 1 })));
    assert_eq!(stream_access(None, None).unwrap_err().kind, ErrorKind::NotFound);
    assert_eq!(stream_access(Some(song(None, None)), None).unwrap_err().kind, ErrorKind::Forbidden);
    let ok = stream_access(Some(song(None, None)), Some(UserLibraryRow { user_id: 1, library_id: 4, is_enabled: 1 }));
    assert_eq!(ok.unwrap().id, 1);
}

#[test]
fn stream_description() {
    let i = stream_info(&song(None, None), "Artist", vec![1, 2, 3]);
    assert_eq!(i.file_name.as_deref(), Some("Artist - Song.mp3"));
    assert_eq!(i.content_type, "audio/mpeg");
    assert_eq!(i.content_length, 3);
    let j = stream_info(&song(Some("flac"), Some("audio/flac")), "", vec![]);
    assert_eq!(j.file_name.as_deref(), Some(" - Song.flac"));
    assert_eq!(j.content_type, "audio/flac");
}

#[test]
fn cover_fallback_chain() {
    let s = song(None, None);
    let v = cover_lookups("song", 1, Some(&s), None);
    assert_eq!(v, vec![("song".to_string(), 1), ("album".to_string(), 3), ("artist".to_string(), 2)]);
    let a = AlbumRow { id: 3, name: "x".to_string(), artist_id: 2, library_id: 4, year: None, created_at: 0 };
    assert_eq!(cover_lookups("album", 3, None, Some(&a)), vec![("album".to_string(), 3), ("artist".to_string(), 2)]);
    assert_eq!(cover_lookups("artist", 2, None, None), vec![("artist".to_string(), 2)]);
    assert_eq!(cover_lookups("song", 9, None, None), vec![("song".to_string(), 9)]);
}

#[test]
fn cover_files_and_placeholder() {
    let c = CoverArtRow { id: 1, item_type: "album".to_string(), item_id: 3, mime_type: "image/png".to_string(), width: None, height: None, file_path: Some("/c.png".to_string()) };
    assert_eq!(cover_file(Some(c)), Some(("image/png".to_string(), "/c.png".to_string())));
    let d = CoverArtRow { id: 1, item_type: "album".to_string(), item_id: 3, mime_type: "image/png".to_string(), width: None, height: None, file_path: None };
    assert_eq!(cover_file(Some(d)), None);
    let (mime, data) = cover_or_default(None);
    assert_eq!(mime, DEFAULT_COVER_MIME);
    assert_eq!(data, DEFAULT_COVER_SVG.as_bytes().to_vec());
    assert!(DEFAULT_COVER_SVG.starts_with("<svg"));
    let (m2, d2) = cover_or_default(Some(("image/jpeg".to_string(), vec![9])));
    assert_eq!((m2.as_str(), d2), ("image/jpeg", vec![9]));
}
