use moosic::entities::SongRow;
use moosic::error::ErrorKind;
use moosic::handlers::album::{
    album_cover_url, plan_album_list, song_totals, AlbumListKind, AlbumListRequest,
};
use moosic::handlers::artist::{
    artist_cover_url, plan_artist_list, plan_artist_songs, ArtistListRequest, ArtistSongsRequest,
};
use moosic::handlers::music::{
    minutes_ago, plan_music_list, rand_size, MusicListKind, MusicListRequest, RandRequest,
};

fn album_req(t: &str, year_from: Option<i32>, year_to: Option<i32>) -> AlbumListRequest {
    AlbumListRequest {
        list_type: t.to_string(),
        artist_id: Some(4),
        year_from,
        year_to,
        offset: Some(-5),
        limit: Some(1_000),
    }
}

fn music_req(t: &str) -> MusicListRequest {
    MusicListRequest {
        list_type: t.to_string(),
        artist_id: None,
        year_from: Some(1990),
        year_to: None,
        offset: Some(20),
        limit: None,
    }
}

fn song(duration: i32) -> SongRow {
    SongRow {
        id: 1,
        title: "t".to_string(),
        artist_id: 1,
        album_id: None,
        track_number: None,
        disc_number: None,
        duration_secs: duration,
        bit_rate: None,
        size_bytes: None,
        file_format: None,
        content_type: None,
        year: None,
        file_path: "/m".to_string(),
        has_cover_art: 0,
        library_id: 1,
        created_at: 0,
    }
}

#[test]
fn album_listing_plans() {
    let p = plan_album_list(&album_req("byYear", None, Some(2000))).unwrap();
    assert_eq!(p.kind, AlbumListKind::ByYear);
    assert_eq!((p.limit, p.offset), (500, 0));
    assert_eq!((p.items.year_min, p.items.year_max), (Some(0), Some(2000)));
    assert_eq!(p.items.artist_id, Some(4));
    let r = plan_album_list(&album_req("recent", Some(1), Some(2))).unwrap();
    assert_eq!((r.items.year_min, r.items.year_max), (None, None));
    assert_eq!((r.count.year_min, r.count.year_max), (Some(1), Some(2)));
    let e = plan_album_list(&album_req("sideways", None, None)).unwrap_err();
    assert_eq!(e.kind, ErrorKind::ValidationError);
    assert_eq!(e.message, "Unknown album list type: sideways");
}

#[test]
fn music_listing_plans() {
    let p = plan_music_list(&music_req("newest")).unwrap();
    assert_eq!(p.kind, MusicListKind::Newest);
    assert_eq!((p.limit, p.offset), (50, 20));
    assert_eq!(p.items.year_min, Some(1990));
    let y = plan_music_list(&music_req("byYear")).unwrap();
    assert_eq!((y.items.year_min, y.items.year_max), (Some(1990), Some(9999)));
    let e = plan_music_list(&music_req("nope")).unwrap_err();
    assert_eq!(e.kind, ErrorKind::ValidationError);
    assert_eq!(e.message, "Unknown music list type: nope");
}

#[test]
fn artist_listing_plans() {
    let p = plan_artist_list(&ArtistListRequest { letter: Some("B".to_string()), offset: None, limit: Some(0) });
    assert_eq!(p.name_pattern.as_deref(), Some("B%"));
    assert_eq!((p.limit, p.offset), (1, 0));
    let q = plan_artist_list(&ArtistListRequest { letter: Some(String::new()), offset: Some(3), limit: None });
    assert_eq!(q.name_pattern, None);
    assert_eq!(plan_artist_songs(&ArtistSongsRequest { id: 1, offset: Some(2), limit: Some(7) }), (7, 2));
}

#[test]
fn cover_urls_and_totals() {
    assert_eq!(album_cover_url(42), "/api/album/cover?id=42");
    assert_eq!(artist_cover_url(-3), "/api/artist/cover?id=-3");
    assert_eq!(song_totals(&vec![song(100), song(50)]), (2, 150));
    assert_eq!(song_totals(&vec![]), (0, 0));
}

#[test]
fn random_sizes_and_play_ages() {
    assert_eq!(rand_size(&RandRequest { size: None, year_from: None, year_to: None }), 10);
    assert_eq!(rand_size(&RandRequest { size: Some(500), year_from: None, year_to: None }), 100);
    assert_eq!(minutes_ago(600_000, 480_000), 2);
    assert_eq!(minutes_ago(600_000, 0), 0);
    assert_eq!(minutes_ago(600_000, 659_999), 0);
}
