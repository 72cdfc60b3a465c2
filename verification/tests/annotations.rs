use moosic::entities::{AlbumRow, ScrobbleRow, StarRow};
use moosic::error::ErrorKind;
use moosic::handlers::annotation::{paged_window, scrobble_params, PagedRequest, ScrobbleRequest};
use moosic::services::annotation::{
    scrobble_dedup_window, scrobble_should_record, starred_albums, toggle_star_action,
    validate_rating, StarAction,
};

fn play(user_id: i32, song_id: i32, submission: i32, played_at: i64) -> ScrobbleRow {
    ScrobbleRow { id: 1, user_id, song_id, submission, played_at }
}

#[test]
fn ratings_run_from_one_to_five() {
    assert_eq!(validate_rating(0).unwrap_err().kind, ErrorKind::ValidationError);
    assert_eq!(validate_rating(6).unwrap_err().kind, ErrorKind::ValidationError);
    assert_eq!(validate_rating(1).unwrap(), 1);
    assert_eq!(validate_rating(5).unwrap(), 5);
}

#[test]
fn toggling_flips_the_star() {
    assert!(matches!(toggle_star_action(true), (StarAction::Remove, false)));
    assert!(matches!(toggle_star_action(false), (StarAction::Insert, true)));
}

#[test]
fn duplicate_submissions_within_five_minutes_are_skipped() {
    assert_eq!(scrobble_dedup_window(1_000_000), (700_000, 1_300_000));
    let existing = vec![play(1, 2, 1, 1_000_000)];
    assert!(!scrobble_should_record(&existing, 1, 2, true, 1_200_000));
    assert!(scrobble_should_record(&existing, 1, 2, true, 1_300_001));
    assert!(scrobble_should_record(&existing, 1, 3, true, 1_000_000));
    assert!(scrobble_should_record(&existing, 1, 2, false, 1_000_000));
    let notices = vec![play(1, 2, 0, 1_000_000)];
    assert!(scrobble_should_record(&notices, 1, 2, true, 1_000_000));
}

#[test]
fn request_defaults() {
    assert_eq!(paged_window(&PagedRequest { offset: None, limit: None }), (0, 50));
    assert_eq!(paged_window(&PagedRequest { offset: Some(-1), limit: Some(501) }), (0, 500));
    let r = ScrobbleRequest { song_id: 1, submission: None, played_at: None };
    assert_eq!(scrobble_params(&r, 77), (false, 77));
    let s = ScrobbleRequest { song_id: 1, submission: Some(true), played_at: Some(5) };
    assert_eq!(scrobble_params(&s, 77), (true, 5));
}

#[test]
fn starred_albums_carry_names() {
    let stars = vec![StarRow { user_id: 1, item_type: "album".to_string(), item_id: 5, starred_at: 9 }];
    let albums = vec![AlbumRow { id: 5, name: "LP".to_string(), artist_id: 2, library_id: 1, year: None, created_at: 0 }];
    let artists = vec![(2, "Band".to_string())];
    let items = starred_albums(&stars, &albums, &artists);
    assert_eq!(items[0].name, "LP");
    assert_eq!(items[0].artist_name.as_deref(), Some("Band"));
    assert_eq!(items[0].starred_at, 9);
}
