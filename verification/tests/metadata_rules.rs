use moosic::services::metadata::{
    cover_mime, dimension, fallback_metadata, is_audio_file, metadata_from_tags,
    mime_type_for_extension, parse_year, TagValues,
};

#[test]
fn mime_types_ignore_case() {
    assert_eq!(mime_type_for_extension("mp3"), "audio/mpeg");
    assert_eq!(mime_type_for_extension("FLAC"), "audio/flac");
    assert_eq!(mime_type_for_extension("Mp4"), "audio/mp4");
    assert_eq!(mime_type_for_extension("aif"), "audio/aiff");
    assert_eq!(mime_type_for_extension("txt"), "application/octet-stream");
}

#[test]
fn audio_files_by_extension() {
    assert!(is_audio_file("/music/a/track.MP3"));
    assert!(is_audio_file("song.opus"));
    assert!(!is_audio_file("/music/cover.jpg"));
    assert!(!is_audio_file("/music/noext"));
    assert!(!is_audio_file("/music/clip.mp4"));
}

#[test]
fn fallback_uses_the_file_name() {
    let m = fallback_metadata("/m/Some Song.flac");
    assert_eq!(m.title, "Some Song");
    assert_eq!(m.artist, "Unknown Artist");
    assert_eq!(m.file_format, "flac");
    assert_eq!(m.content_type, "audio/flac");
    assert_eq!(m.duration_secs, 0);
}

#[test]
fn tags_become_metadata() {
    let tags = TagValues {
        title: Some("T".to_string()),
        artist: None,
        album: Some("A".to_string()),
        album_artist: None,
        track: Some(3),
        disc: None,
        year_text: Some("1999".to_string()),
        has_pictures: true,
    };
    let m = metadata_from_tags("/m/x.MP3", Some(tags), 215, Some(320));
    assert_eq!((m.title.as_str(), m.artist.as_str()), ("T", ""));
    assert_eq!(m.album.as_deref(), Some("A"));
    assert_eq!((m.track_number, m.year, m.has_cover_art), (Some(3), Some(1999), true));
    assert_eq!((m.duration_secs, m.bit_rate), (215, Some(320)));
    assert_eq!((m.file_format.as_str(), m.content_type.as_str()), ("mp3", "audio/mpeg"));
}

#[test]
fn years_dimensions_and_cover_types() {
    assert_eq!(parse_year("2001"), Some(2001));
    assert_eq!(parse_year("2001-05-02"), None);
    assert_eq!(dimension(0), None);
    assert_eq!(dimension(640), Some(640));
    assert_eq!(cover_mime(None), "image/jpeg");
    assert_eq!(cover_mime(Some("image/png".to_string())), "image/png");
}
