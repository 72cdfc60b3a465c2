use moosic::entities::{PlaylistRow, PlaylistSongRow, SongRow};
use moosic::error::ErrorKind;
use moosic::services::playlist::{
    check_owner, check_visible, max_position, new_playlist, place_songs, playlist_song_items,
    playlist_stats, playlist_summaries, remove_and_renumber, update_playlist,
};

fn playlist(owner: i32, public: i32) -> PlaylistRow {
    PlaylistRow {
        id: 3,
        name: "mix".to_string(),
        owner_id: owner,
        comment: None,
        is_public: public,
        created_at: 1,
        updated_at: 1,
    }
}

fn entry(pid: i32, song: i32, pos: i32) -> PlaylistSongRow {
    PlaylistSongRow { playlist_id: pid, song_id: song, position: pos, added_at: 0 }
}

fn song(id: i32, duration: i32) -> SongRow {
    SongRow {
        id,
        title: format!("s{id}"),
        artist_id: 1,
        album_id: Some(2),
        track_number: None,
        disc_number: None,
        duration_secs: duration,
        bit_rate: None,
        size_bytes: None,
        file_format: None,
        content_type: None,
        year: None,
        file_path: format!("/m/{id}"),
        has_cover_art: 0,
        library_id: 1,
        created_at: 0,
    }
}

#[test]
fn hidden_playlists_are_not_found() {
    assert_eq!(check_visible(None, 1).unwrap_err().kind, ErrorKind::NotFound);
    assert_eq!(check_visible(Some(playlist(2, 0)), 1).unwrap_err().kind, ErrorKind::NotFound);
    assert!(check_visible(Some(playlist(2, 1)), 1).is_ok());
    assert!(check_visible(Some(playlist(1, 0)), 1).is_ok());
}

#[test]
fn changes_need_the_owner() {
    assert_eq!(check_owner(None, 1).unwrap_err().kind, ErrorKind::NotFound);
    assert_eq!(check_owner(Some(playlist(2, 1)), 1).unwrap_err().kind, ErrorKind::Forbidden);
    assert!(check_owner(Some(playlist(1, 0)), 1).is_ok());
}

#[test]
fn new_and_edited_playlists() {
    let p = new_playlist(4, "road", Some("c"), true, 9);
    assert_eq!((p.owner_id, p.is_public, p.created_at, p.updated_at), (4, 1, 9, 9));
    assert_eq!(p.comment.as_deref(), Some("c"));
    let q = update_playlist(p, None, Some(None), Some(false), 20);
    assert_eq!((q.name.as_str(), q.is_public, q.updated_at), ("road", 0, 20));
    assert_eq!(q.comment, None);
}

#[test]
fn songs_are_placed_after_the_start() {
    let placed = place_songs(3, &vec![10, 11, 12], 0, 5);
    let positions: Vec<(i32, i32)> = placed.iter().map(|e| (e.song_id, e.position)).collect();
    assert_eq!(positions, vec![(10, 1), (11, 2), (12, 3)]);
    let existing = vec![entry(3, 1, 4), entry(3, 2, 9), entry(3, 3, 2)];
    let start = max_position(&existing);
    assert_eq!(start, 9);
    let appended = place_songs(3, &vec![20, 21], start, 5);
    let positions: Vec<i32> = appended.iter().map(|e| e.position).collect();
    assert_eq!(positions, vec![10, 11]);
    assert_eq!(max_position(&vec![]), 0);
}

#[test]
fn removal_renumbers_the_rest() {
    let entries = vec![entry(3, 1, 1), entry(3, 2, 2), entry(3, 3, 3), entry(3, 2, 4)];
    let rest = remove_and_renumber(&entries, &vec![2]);
    let v: Vec<(i32, i32)> = rest.iter().map(|e| (e.song_id, e.position)).collect();
    assert_eq!(v, vec![(1, 1), (3, 2)]);
    let all = remove_and_renumber(&entries, &vec![]);
    let w: Vec<i32> = all.iter().map(|e| e.position).collect();
    assert_eq!(w, vec![1, 2, 3, 4]);
}

#[test]
fn stats_count_songs_and_sum_known_durations() {
    let entries = vec![entry(3, 1, 1), entry(4, 2, 1), entry(3, 2, 2), entry(3, 9, 3)];
    let durations = vec![(1, 100), (2, 50)];
    assert_eq!(playlist_stats(&entries, &durations, 3), (3, 150));
    assert_eq!(playlist_stats(&entries, &durations, 4), (1, 50));
    assert_eq!(playlist_stats(&entries, &durations, 5), (0, 0));
    let owners = vec![(1, "ann".to_string())];
    let s = playlist_summaries(&vec![playlist(1, 1), PlaylistRow { id: 4, ..playlist(8, 0) }], &owners, &entries, &durations);
    assert_eq!(s[0].owner_name, "ann");
    assert_eq!((s[0].song_count, s[0].duration_secs, s[0].is_public), (3, 150, true));
    assert_eq!(s[1].owner_name, "");
    assert_eq!((s[1].song_count, s[1].duration_secs), (1, 50));
}

#[test]
fn song_items_resolve_names_and_stars() {
    let entries = vec![entry(3, 1, 1), entry(3, 7, 2)];
    let songs = vec![song(1, 200)];
    let artists = vec![(1, "Band".to_string())];
    let albums = vec![(2, "LP".to_string())];
    let stars = vec![(1, 555)];
    let items = playlist_song_items(&entries, &songs, &artists, &albums, &stars);
    assert_eq!(items[0].title, "s1");
    assert_eq!(items[0].artist_name, "Band");
    assert_eq!(items[0].album_name.as_deref(), Some("LP"));
    assert_eq!((items[0].duration_secs, items[0].starred), (200, Some(555)));
    assert_eq!(items[1].title, "");
    assert_eq!((items[1].duration_secs, items[1].starred, items[1].position), (0, None, 2));
}
