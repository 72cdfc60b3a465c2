use moosic::entities::SongRow;
use moosic::services::watcher::{
    add_pending, is_relevant_event, orphans_after_delete, pending_event, resolve_library,
    should_process, FsEventKind,
};

fn song(artist_id: i32, album_id: Option<i32>, library_id: i32) -> SongRow {
    SongRow {
        id: 1,
        title: "t".to_string(),
        artist_id,
        album_id,
        track_number: None,
        disc_number: None,
        duration_secs: 1,
        bit_rate: None,
        size_bytes: None,
        file_format: None,
        content_type: None,
        year: None,
        file_path: "/m".to_string(),
        has_cover_art: 0,
        library_id,
        created_at: 0,
    }
}

#[test]
fn the_longest_library_root_wins() {
    let libs = vec![
        ("/music".to_string(), 1),
        ("/music/jazz".to_string(), 2),
        ("/other".to_string(), 3),
    ];
    assert_eq!(resolve_library("/music/jazz/a.mp3", &libs), Some(2));
    assert_eq!(resolve_library("/music/rock/a.mp3", &libs), Some(1));
    assert_eq!(resolve_library("/musicbox/a.mp3", &libs), None);
    assert_eq!(resolve_library("/elsewhere/a.mp3", &libs), None);
    let tie = vec![("/m".to_string(), 1), ("/m/".to_string(), 2)];
    assert_eq!(resolve_library("/m/x.mp3", &tie), Some(2));
}

#[test]
fn only_changes_to_files_matter() {
    assert!(is_relevant_event(FsEventKind::Create));
    assert!(is_relevant_event(FsEventKind::Modify));
    assert!(is_relevant_event(FsEventKind::Remove));
    assert!(!is_relevant_event(FsEventKind::Access));
    assert!(!is_relevant_event(FsEventKind::Any));
    assert!(!is_relevant_event(FsEventKind::Other));
}

#[test]
fn a_batch_keeps_each_path_once() {
    let mut pending = Vec::new();
    add_pending(&mut pending, "/m/a.mp3");
    add_pending(&mut pending, "/m/b.mp3");
    add_pending(&mut pending, "/m/a.mp3");
    assert_eq!(pending, vec!["/m/a.mp3".to_string(), "/m/b.mp3".to_string()]);
}

#[test]
fn events_need_an_audio_file_in_a_library() {
    let libs = vec![("/music".to_string(), 1)];
    let e = pending_event("/music/a.flac", false, &libs).unwrap();
    assert_eq!((e.library_id, e.exists), (1, false));
    assert!(pending_event("/music/cover.jpg", true, &libs).is_none());
    assert!(pending_event("/tmp/a.flac", true, &libs).is_none());
}

#[test]
fn scanning_libraries_are_skipped() {
    assert!(!should_process(2, &vec![1, 2]));
    assert!(should_process(3, &vec![1, 2]));
}

#[test]
fn deleting_the_last_song_orphans_artist_and_album() {
    let deleted = song(7, Some(8), 1);
    assert_eq!(orphans_after_delete(&deleted, &vec![], 1), (Some(7), Some(8)));
    assert_eq!(orphans_after_delete(&deleted, &vec![song(7, None, 1)], 1), (None, Some(8)));
    assert_eq!(orphans_after_delete(&deleted, &vec![song(7, Some(8), 2)], 1), (Some(7), Some(8)));
    assert_eq!(orphans_after_delete(&song(7, None, 1), &vec![song(1, Some(8), 1)], 1), (Some(7), None));
}
