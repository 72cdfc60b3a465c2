use moosic::entities::{AlbumRow, ArtistRow, SongRow};
use moosic::error::ErrorKind;
use moosic::services::scanner::{
    active_scan_libraries, cancel_scan, complete_scan, fail_scan, files_to_scan,
    generate_scan_id, is_cancelled, orphan_albums, orphan_artists, orphan_songs, sort_name,
    start_scan, WalkEntry,
};
use moosic::state::{ScanState, ScanStatus};

fn song(id: i32, path: &str, size: Option<i64>, artist: i32, album: Option<i32>) -> SongRow {
    SongRow {
        id,
        title: format!("t{id}"),
        artist_id: artist,
        album_id: album,
        track_number: None,
        disc_number: None,
        duration_secs: 100,
        bit_rate: None,
        size_bytes: size,
        file_format: None,
        content_type: None,
        year: None,
        file_path: path.to_string(),
        has_cover_art: 0,
        library_id: 1,
        created_at: 0,
    }
}

fn entry(path: &str, size: i64) -> WalkEntry {
    WalkEntry { file_path: path.to_string(), mtime_ms: 0, size_bytes: size }
}

#[test]
fn scan_ids_have_the_scan_prefix() {
    let id = generate_scan_id();
    assert!(id.starts_with("scan_"));
    assert_eq!(id.len(), 21);
    assert!(id[5..].chars().all(|c| c.is_ascii_lowercase() || c.is_ascii_digit()));
}

#[test]
fn second_scan_conflicts() {
    let mut s = ScanState::default();
    assert!(start_scan(&mut s, "scan_a".to_string(), vec![1, 2], 10).is_ok());
    let e = start_scan(&mut s, "scan_b".to_string(), vec![3], 11).unwrap_err();
    assert_eq!(e.kind, ErrorKind::Conflict);
    let p = s.active.as_ref().unwrap();
    assert_eq!(p.scan_id, "scan_a");
    assert_eq!(p.status, ScanStatus::Scanning);
    assert_eq!(p.started_at, 10);
    assert_eq!(active_scan_libraries(&s), vec![1, 2]);
}

#[test]
fn cancel_only_the_current_scan() {
    let mut s = ScanState::default();
    assert_eq!(cancel_scan(&mut s, "scan_a").unwrap_err().kind, ErrorKind::NotFound);
    start_scan(&mut s, "scan_a".to_string(), vec![], 0).unwrap();
    assert_eq!(cancel_scan(&mut s, "scan_z").unwrap_err().kind, ErrorKind::NotFound);
    assert!(!is_cancelled(&s, "scan_a"));
    cancel_scan(&mut s, "scan_a").unwrap();
    assert!(is_cancelled(&s, "scan_a"));
    assert_eq!(active_scan_libraries(&s), Vec::<i32>::new());
}

#[test]
fn failure_and_completion_are_recorded() {
    let mut s = ScanState::default();
    start_scan(&mut s, "scan_a".to_string(), vec![4], 0).unwrap();
    fail_scan(&mut s, "scan_other", "x".to_string());
    assert_eq!(s.active.as_ref().unwrap().status, ScanStatus::Scanning);
    complete_scan(&mut s, "scan_a", 12);
    let p = s.active.as_ref().unwrap();
    assert_eq!(p.status, ScanStatus::Completed);
    assert_eq!((p.files_scanned, p.files_total), (12, 12));
    let mut t = ScanState::default();
    start_scan(&mut t, "scan_b".to_string(), vec![], 0).unwrap();
    fail_scan(&mut t, "scan_b", "disk gone".to_string());
    let q = t.active.as_ref().unwrap();
    assert_eq!(q.status, ScanStatus::Failed);
    assert_eq!(q.error.as_deref(), Some("disk gone"));
}

#[test]
fn sort_names_drop_leading_articles() {
    assert_eq!(sort_name("The Beatles"), "Beatles");
    assert_eq!(sort_name("the  Who"), "Who");
    assert_eq!(sort_name("A Tribe"), "Tribe");
    assert_eq!(sort_name("An Album"), "Album");
    assert_eq!(sort_name("Theory"), "Theory");
    assert_eq!(sort_name("Abba"), "Abba");
}

#[test]
fn only_new_or_resized_files_are_scanned() {
    let existing = vec![song(1, "/m/a.mp3", Some(10), 1, None), song(2, "/m/b.mp3", None, 1, None)];
    let entries = vec![entry("/m/a.mp3", 10), entry("/m/b.mp3", 0), entry("/m/c.mp3", 5), entry("/m/a.mp3", 11)];
    let todo: Vec<String> = files_to_scan(&entries, &existing).into_iter().map(|e| e.file_path).collect();
    assert_eq!(todo, vec!["/m/c.mp3".to_string(), "/m/a.mp3".to_string()]);
}

#[test]
fn songs_without_files_and_orphans_are_found() {
    let songs = vec![song(1, "/m/a.mp3", None, 1, Some(5)), song(2, "/m/gone.mp3", None, 2, Some(6))];
    let entries = vec![entry("/m/a.mp3", 1)];
    assert_eq!(orphan_songs(&entries, &songs), vec![2]);
    let remaining = vec![song(1, "/m/a.mp3", None, 1, Some(5))];
    let artists = vec![
        ArtistRow { id: 1, name: "x".to_string(), sort_name: None, library_id: 1, created_at: 0 },
        ArtistRow { id: 2, name: "y".to_string(), sort_name: None, library_id: 1, created_at: 0 },
    ];
    assert_eq!(orphan_artists(&remaining, &artists), vec![2]);
    let albums = vec![
        AlbumRow { id: 5, name: "p".to_string(), artist_id: 1, library_id: 1, year: None, created_at: 0 },
        AlbumRow { id: 6, name: "q".to_string(), artist_id: 2, library_id: 1, year: None, created_at: 0 },
    ];
    assert_eq!(orphan_albums(&remaining, &albums), vec![6]);
}

#[test]
fn a_finished_scan_makes_room_for_the_next() {
    let mut s = ScanState::default();
    start_scan(&mut s, "scan_a".to_string(), vec![1], 0).unwrap();
    complete_scan(&mut s, "scan_a", 3);
    assert!(start_scan(&mut s, "scan_b".to_string(), vec![2], 5).is_ok());
    let p = s.active.as_ref().unwrap();
    assert_eq!(p.scan_id, "scan_b");
    assert_eq!(p.status, ScanStatus::Scanning);
    assert_eq!(p.started_at, 5);
}

#[test]
fn a_finished_scan_cannot_be_cancelled() {
    let mut s = ScanState::default();
    start_scan(&mut s, "scan_a".to_string(), vec![1], 0).unwrap();
    fail_scan(&mut s, "scan_a", "boom".to_string());
    let e = cancel_scan(&mut s, "scan_a").unwrap_err();
    assert_eq!(e.kind, ErrorKind::NotFound);
    assert_eq!(s.active.as_ref().unwrap().status, ScanStatus::Failed);
}
