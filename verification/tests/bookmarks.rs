use moosic::entities::{BookmarkRow, SongRow};
use moosic::error::ErrorKind;
use moosic::services::bookmark::{
    bookmark_items, check_position, delete_check, find_bookmark, upsert_bookmark,
};

fn song(id: i32, artist_id: i32, duration: i32) -> SongRow {
    SongRow {
        id,
        title: format!("s{id}"),
        artist_id,
        album_id: None,
        track_number: None,
        disc_number: None,
        duration_secs: duration,
        bit_rate: None,
        size_bytes: None,
        file_format: None,
        content_type: None,
        year: None,
        file_path: format!("/m/{id}"),
        has_cover_art: 0,
        library_id: 1,
        created_at: 0,
    }
}

fn bm(id: i32, user_id: i32, song_id: i32, device: Option<&str>) -> BookmarkRow {
    BookmarkRow {
        id,
        user_id,
        song_id,
        position_ms: 10,
        device_id: device.map(|d| d.to_string()),
        updated_at: 0,
    }
}

#[test]
fn positions_must_lie_inside_the_song() {
    assert_eq!(check_position(None, 0).unwrap_err().kind, ErrorKind::NotFound);
    let s = song(1, 1, 10);
    assert!(check_position(Some(&s), 9_999).is_ok());
    assert!(check_position(Some(&s), 10_000).is_ok());
    let e = check_position(Some(&s), 10_001).unwrap_err();
    assert_eq!(e.kind, ErrorKind::ValidationError);
    assert_eq!(e.message, "Position 10001ms exceeds song duration 10s");
}

#[test]
fn bookmarks_are_matched_by_user_song_and_device() {
    let rows = vec![bm(1, 1, 5, Some("phone")), bm(2, 1, 5, None), bm(3, 2, 5, None)];
    assert_eq!(find_bookmark(&rows, 1, 5, None), Some(1));
    assert_eq!(find_bookmark(&rows, 1, 5, Some("phone")), Some(0));
    assert_eq!(find_bookmark(&rows, 1, 5, Some("tablet")), None);
    assert_eq!(find_bookmark(&rows, 3, 5, None), None);
}

#[test]
fn upsert_updates_or_creates() {
    let u = upsert_bookmark(Some(bm(7, 1, 5, None)), 1, 5, 300, None, 99);
    assert_eq!((u.id, u.position_ms, u.updated_at), (7, 300, 99));
    let n = upsert_bookmark(None, 1, 5, 300, Some("car"), 99);
    assert_eq!((n.id, n.user_id, n.song_id), (0, 1, 5));
    assert_eq!(n.device_id.as_deref(), Some("car"));
}

#[test]
fn deleting_needs_the_owner() {
    assert_eq!(delete_check(None, 1).unwrap_err().kind, ErrorKind::NotFound);
    assert_eq!(delete_check(Some(bm(3, 2, 5, None)), 1).unwrap_err().kind, ErrorKind::Forbidden);
    assert_eq!(delete_check(Some(bm(3, 1, 5, None)), 1).unwrap(), 3);
}

#[test]
fn listing_resolves_songs_and_artists() {
    let songs = vec![song(5, 8, 100)];
    let artists = vec![(8, "Band".to_string())];
    let items = bookmark_items(&vec![bm(1, 1, 5, None)], &songs, &artists).unwrap();
    assert_eq!((items[0].title.as_str(), items[0].artist_name.as_str()), ("s5", "Band"));
    let missing_song = bookmark_items(&vec![bm(1, 1, 6, None)], &songs, &artists).unwrap_err();
    assert_eq!(missing_song.kind, ErrorKind::NotFound);
    assert_eq!(missing_song.message, "Song 6 not found");
    let missing_artist = bookmark_items(&vec![bm(1, 1, 5, None)], &songs, &vec![]).unwrap_err();
    assert_eq!(missing_artist.message, "Artist 8 not found");
}
