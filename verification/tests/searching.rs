use moosic::entities::{AlbumRow, ArtistRow, SongRow};
use moosic::services::search::{
    album_results, artist_results, contains_pattern, prefix_pattern, search_results, search_scope,
    song_results, suggestions, ArtistResult,
};
use moosic::handlers::search::{suggest_limit, SuggestRequest};

fn artist(id: i32, name: &str) -> ArtistRow {
    ArtistRow { id, name: name.to_string(), sort_name: None, library_id: 1, created_at: 0 }
}

fn album(id: i32, name: &str, artist_id: i32) -> AlbumRow {
    AlbumRow { id, name: name.to_string(), artist_id, library_id: 1, year: Some(1999), created_at: 0 }
}

fn song(id: i32, title: &str, artist_id: i32, album_id: Option<i32>) -> SongRow {
    SongRow {
        id,
        title: title.to_string(),
        artist_id,
        album_id,
        track_number: Some(1),
        disc_number: None,
        duration_secs: 61,
        bit_rate: None,
        size_bytes: None,
        file_format: None,
        content_type: None,
        year: None,
        file_path: format!("/m/{id}"),
        has_cover_art: 0,
        library_id: 1,
        created_at: 0,
    }
}

#[test]
fn scope_of_type_filters() {
    assert_eq!(search_scope(None), (true, true, true));
    assert_eq!(search_scope(Some("all")), (true, true, true));
    assert_eq!(search_scope(Some("album")), (false, true, false));
    assert_eq!(search_scope(Some("song")), (false, false, true));
    assert_eq!(search_scope(Some("genre")), (false, false, false));
}

#[test]
fn like_patterns() {
    assert_eq!(contains_pattern("abc"), "%abc%");
    assert_eq!(prefix_pattern("ab"), "ab%");
}

#[test]
fn results_carry_counts_and_names() {
    let arts = artist_results(&vec![artist(1, "A"), artist(2, "B")], &vec![album(5, "x", 1), album(6, "y", 1)]);
    assert_eq!((arts[0].album_count, arts[1].album_count), (2, 0));
    let albs = album_results(&vec![album(5, "x", 1)], &vec![(1, "A".to_string())], &vec![song(1, "s", 1, Some(5)), song(2, "t", 1, None)]);
    assert_eq!(albs[0].artist_name, "A");
    assert_eq!(albs[0].song_count, 1);
    let songs = song_results(&vec![song(1, "s", 9, Some(5)), song(2, "t", 1, None)], &vec![(1, "A".to_string())], &vec![(5, "x".to_string())]);
    assert_eq!(songs[0].artist_name, "");
    assert_eq!(songs[0].album_name.as_deref(), Some("x"));
    assert_eq!(songs[1].album_name, None);
}

#[test]
fn suggestions_in_order_and_capped() {
    let artists = vec![artist(1, "Abba")];
    let albums = vec![album(5, "Abbey Road", 2)];
    let songs = vec![song(9, "Abc", 3, None)];
    let album_artists = vec![(2, "Beatles".to_string())];
    let song_artists: Vec<(i32, String)> = vec![];
    let all = suggestions("Ab", &artists, &albums, &album_artists, &songs, &song_artists, 10);
    let v: Vec<(String, i32, String)> = all.iter().map(|s| (s.kind.clone(), s.id, s.text.clone())).collect();
    assert_eq!(
        v,
        vec![
            ("artist".to_string(), 1, "Abba".to_string()),
            ("album".to_string(), 5, "Beatles -- Abbey Road".to_string()),
            ("song".to_string(), 9, "Unknown -- Abc".to_string()),
        ]
    );
    let two = suggestions("Ab", &artists, &albums, &album_artists, &songs, &song_artists, 2);
    assert_eq!(two.len(), 2);
    assert!(suggestions("", &artists, &albums, &album_artists, &songs, &song_artists, 10).is_empty());
}

#[test]
fn suggestion_limit_is_clamped() {
    assert_eq!(suggest_limit(&SuggestRequest { query: "a".to_string(), limit: None }), 10);
    assert_eq!(suggest_limit(&SuggestRequest { query: "a".to_string(), limit: Some(0) }), 1);
    assert_eq!(suggest_limit(&SuggestRequest { query: "a".to_string(), limit: Some(80) }), 50);
}

#[test]
fn unsearched_categories_are_empty() {
    let hit = || vec![ArtistResult { id: 1, name: "A".to_string(), album_count: 0 }];
    let r = search_results(Some("album"), hit(), 7, Vec::new(), 3, Vec::new(), 9);
    assert!(r.artists.is_empty());
    assert_eq!((r.artist_total, r.album_total, r.song_total), (0, 3, 0));
    let r = search_results(None, hit(), 7, Vec::new(), 3, Vec::new(), 9);
    assert_eq!(r.artists.len(), 1);
    assert_eq!((r.artist_total, r.album_total, r.song_total), (7, 3, 9));
    let r = search_results(Some("nothing"), hit(), 7, Vec::new(), 3, Vec::new(), 9);
    assert!(r.artists.is_empty());
    assert_eq!((r.artist_total, r.album_total, r.song_total), (0, 0, 0));
}
