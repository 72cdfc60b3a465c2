//! What the scanner records about an audio file: its metadata, the MIME type
//! of its extension and whether a file counts as audio at all.

use vstd::prelude::*;
use vstd::string::*;
use crate::text::{decimal, parse_i64, str_equals, trim, trim_str};

verus! {

/// Parsed metadata extracted from an audio file.
#[derive(Debug)]
pub struct SongMetadata {
    pub title: String,
    pub artist: String,
    pub album: Option<String>,
    pub album_artist: Option<String>,
    pub track_number: Option<i32>,
    pub disc_number: Option<i32>,
    pub duration_secs: i32,
    pub bit_rate: Option<i32>,
    pub file_format: String,
    pub content_type: String,
    pub year: Option<i32>,
    pub has_cover_art: bool,
}

/// Embedded cover art extracted from an audio file.
#[derive(Debug)]
pub struct CoverArtData {
    pub mime_type: String,
    pub data: Vec<u8>,
    pub width: Option<i32>,
    pub height: Option<i32>,
}

/// `str::to_lowercase`: the Unicode lower-case mapping of `s`.
pub uninterp spec fn unicode_lowercase(s: Seq<char>) -> Seq<char>;

/// Whether every character of `s` is ASCII.
pub open spec fn is_ascii_text(s: Seq<char>) -> bool {
    forall|i: int| 0 <= i < s.len() ==> (#[trigger] s[i] as u32) < 128
}

/// The ASCII lower case of a character: `A`–`Z` become `a`–`z`, anything
/// else stays.
pub open spec fn ascii_lower(c: char) -> char {
    if 'A' <= c && c <= 'Z' {
        ((c as u32) + 32) as char
    } else {
        c
    }
}

/// The ASCII lower case of a text, character by character.
pub open spec fn ascii_lowercase(s: Seq<char>) -> Seq<char> {
    Seq::new(s.len(), |i: int| ascii_lower(s[i]))
}

/// `str::to_lowercase`: the Unicode lower-case mapping of `s`, which maps
/// ASCII text character by character to its ASCII lower case.
#[verifier::external_body]
pub(crate) fn to_lowercase(s: &str) -> (r: String)
    ensures
        r@ == unicode_lowercase(s@),
        is_ascii_text(s@) ==> r@ == ascii_lowercase(s@),
{
    s.to_lowercase()
}

/// The extension of a path (`Path::extension`), when it is valid text.
pub uninterp spec fn path_extension(path: Seq<char>) -> Option<Seq<char>>;

/// The file stem of a path (`Path::file_stem`), when it is valid text.
pub uninterp spec fn path_stem(path: Seq<char>) -> Option<Seq<char>>;

/// `Path::new(path).extension()` as text.
#[verifier::external_body]
fn extension_of(path: &str) -> (r: Option<String>)
    ensures
        match r {
            Some(e) => path_extension(path@) == Some(e@),
            None => path_extension(path@) is None,
        },
{
    std::path::Path::new(path).extension().and_then(|e| e.to_str()).map(|e| e.to_owned())
}

/// `Path::new(path).file_stem()` as text.
#[verifier::external_body]
fn stem_of(path: &str) -> (r: Option<String>)
    ensures
        match r {
            Some(e) => path_stem(path@) == Some(e@),
            None => path_stem(path@) is None,
        },
{
    std::path::Path::new(path).file_stem().and_then(|e| e.to_str()).map(|e| e.to_owned())
}

/// The MIME type served for files with the given (lower-cased) extension.
pub open spec fn mime_for_lower(e: Seq<char>) -> Seq<char> {
    if e == "mp3"@ {
        "audio/mpeg"@
    } else if e == "flac"@ {
        "audio/flac"@
    } else if e == "ogg"@ {
        "audio/ogg"@
    } else if e == "m4a"@ || e == "mp4"@ {
        "audio/mp4"@
    } else if e == "wav"@ {
        "audio/wav"@
    } else if e == "aiff"@ || e == "aif"@ {
        "audio/aiff"@
    } else if e == "wma"@ {
        "audio/x-ms-wma"@
    } else if e == "aac"@ {
        "audio/aac"@
    } else if e == "opus"@ {
        "audio/opus"@
    } else if e == "wv"@ {
        "audio/wavpack"@
    } else if e == "ape"@ {
        "audio/ape"@
    } else {
        "application/octet-stream"@
    }
}

/// Maps a file extension to its MIME type, ignoring case.
pub fn mime_type_for_extension(ext: &str) -> (m: &'static str)
    ensures
        m@ == mime_for_lower(unicode_lowercase(ext@)),
{
    let lower = to_lowercase(ext);
    let e = lower.as_str();
    if str_equals(e, "mp3") {
        "audio/mpeg"
    } else if str_equals(e, "flac") {
        "audio/flac"
    } else if str_equals(e, "ogg") {
        "audio/ogg"
    } else if str_equals(e, "m4a") || str_equals(e, "mp4") {
        "audio/mp4"
    } else if str_equals(e, "wav") {
        "audio/wav"
    } else if str_equals(e, "aiff") || str_equals(e, "aif") {
        "audio/aiff"
    } else if str_equals(e, "wma") {
        "audio/x-ms-wma"
    } else if str_equals(e, "aac") {
        "audio/aac"
    } else if str_equals(e, "opus") {
        "audio/opus"
    } else if str_equals(e, "wv") {
        "audio/wavpack"
    } else if str_equals(e, "ape") {
        "audio/ape"
    } else {
        "application/octet-stream"
    }
}

/// Whether a (lower-cased) extension is one of the recognised audio formats.
pub open spec fn audio_extension(e: Seq<char>) -> bool {
    e == "mp3"@ || e == "flac"@ || e == "ogg"@ || e == "m4a"@ || e == "wav"@ || e == "aiff"@
        || e == "wma"@ || e == "aac"@ || e == "opus"@ || e == "wv"@ || e == "ape"@
}

/// Every recognised audio extension has an audio MIME type of its own, never
/// the generic binary type: an audio file is always served as audio.
pub proof fn lemma_audio_extension_has_mime(e: Seq<char>)
    requires
        audio_extension(e),
    ensures
        mime_for_lower(e) != "application/octet-stream"@,
{
    reveal_strlit("audio/mpeg");
    reveal_strlit("audio/flac");
    reveal_strlit("audio/ogg");
    reveal_strlit("audio/mp4");
    reveal_strlit("audio/wav");
    reveal_strlit("audio/aiff");
    reveal_strlit("audio/x-ms-wma");
    reveal_strlit("audio/aac");
    reveal_strlit("audio/opus");
    reveal_strlit("audio/wavpack");
    reveal_strlit("audio/ape");
    reveal_strlit("application/octet-stream");
    assert(mime_for_lower(e).len() < "application/octet-stream"@.len());
}

/// Whether a file path has a recognised audio extension, ignoring case.
pub fn is_audio_file(path: &str) -> (b: bool)
    ensures
        b == (path_extension(path@) matches Some(e) && audio_extension(unicode_lowercase(e))),
{
    match extension_of(path) {
        Some(ext) => {
            let lower = to_lowercase(ext.as_str());
            let e = lower.as_str();
            str_equals(e, "mp3") || str_equals(e, "flac") || str_equals(e, "ogg") || str_equals(
                e,
                "m4a",
            ) || str_equals(e, "wav") || str_equals(e, "aiff") || str_equals(e, "wma")
                || str_equals(e, "aac") || str_equals(e, "opus") || str_equals(e, "wv")
                || str_equals(e, "ape")
        },
        None => false,
    }
}

/// The view of an optional owned string.
pub open spec fn opt_text(o: Option<String>) -> Option<Seq<char>> {
    match o {
        Some(s) => Some(s@),
        None => None,
    }
}

/// The metadata recorded for a file whose tags cannot be read: the file stem
/// as title (`Unknown` without one), an unknown artist, the extension as
/// format and its MIME type, and nothing else.
pub fn fallback_metadata(path: &str) -> (m: SongMetadata)
    ensures
        m.title@ == (match path_stem(path@) {
            Some(s) => s,
            None => "Unknown"@,
        }),
        m.artist@ == "Unknown Artist"@,
        m.album is None && m.album_artist is None && m.track_number is None
            && m.disc_number is None,
        m.duration_secs == 0 && m.bit_rate is None && m.year is None && !m.has_cover_art,
        m.file_format@ == (match path_extension(path@) {
            Some(e) => e,
            None => Seq::<char>::empty(),
        }),
        m.content_type@ == mime_for_lower(unicode_lowercase(m.file_format@)),
{
    let title = match stem_of(path) {
        Some(s) => s,
        None => crate::error::text("Unknown"),
    };
    let ext = match extension_of(path) {
        Some(e) => e,
        None => String::new(),
    };
    let content_type = crate::error::text(mime_type_for_extension(ext.as_str()));
    SongMetadata {
        title,
        artist: crate::error::text("Unknown Artist"),
        album: None,
        album_artist: None,
        track_number: None,
        disc_number: None,
        duration_secs: 0,
        bit_rate: None,
        file_format: ext,
        content_type,
        year: None,
        has_cover_art: false,
    }
}

/// `str::parse::<i32>`.
pub open spec fn parse_i32(s: Seq<char>) -> Option<i32> {
    match parse_i64(s) {
        Some(v) => if i32::MIN <= v <= i32::MAX {
            Some(v as i32)
        } else {
            None
        },
        None => None,
    }
}

/// Parses a year tag.
pub fn parse_year(s: &str) -> (y: Option<i32>)
    ensures
        y == parse_i32(s@),
{
    let v = crate::text::chars_of(s);
    assert(v@.subrange(0, v@.len() as int) =~= s@);
    match crate::text::parse_i64_in(&v, 0, v.len()) {
        Some(x) => if i32::MIN as i64 <= x && x <= i32::MAX as i64 {
            Some(x as i32)
        } else {
            None
        },
        None => None,
    }
}

/// The tag values read from an audio file.
#[derive(Debug)]
pub struct TagValues {
    pub title: Option<String>,
    pub artist: Option<String>,
    pub album: Option<String>,
    pub album_artist: Option<String>,
    pub track: Option<u32>,
    pub disc: Option<u32>,
    /// The `Year` tag, or else the `RecordingDate` tag.
    pub year_text: Option<String>,
    pub has_pictures: bool,
}

/// The metadata recorded for a file with readable tags: missing title and
/// artist become empty, numbers are converted to `i32` (wrapping as `as`
/// does), the year is parsed, and the format is the lower-cased extension
/// with its MIME type.
pub fn metadata_from_tags(
    path: &str,
    tags: Option<TagValues>,
    duration_secs: u64,
    bit_rate: Option<u32>,
) -> (m: SongMetadata)
    ensures
        m.duration_secs == duration_secs as i32,
        m.bit_rate == (match bit_rate {
            Some(b) => Some(b as i32),
            None => None,
        }),
        m.file_format@ == unicode_lowercase(
            match path_extension(path@) {
                Some(e) => e,
                None => Seq::<char>::empty(),
            },
        ),
        m.content_type@ == mime_for_lower(unicode_lowercase(m.file_format@)),
        match tags {
            None => m.title@.len() == 0 && m.artist@.len() == 0 && m.album is None
                && m.album_artist is None && m.track_number is None && m.disc_number is None
                && m.year is None && !m.has_cover_art,
            Some(t) => {
                &&& m.title@ == (match t.title {
                    Some(s) => s@,
                    None => Seq::<char>::empty(),
                })
                &&& m.artist@ == (match t.artist {
                    Some(s) => s@,
                    None => Seq::<char>::empty(),
                })
                &&& opt_text(m.album) == opt_text(t.album)
                &&& opt_text(m.album_artist) == opt_text(t.album_artist)
                &&& m.track_number == (match t.track {
                    Some(n) => Some(n as i32),
                    None => None,
                })
                &&& m.disc_number == (match t.disc {
                    Some(n) => Some(n as i32),
                    None => None,
                })
                &&& m.year == (match t.year_text {
                    Some(y) => parse_i32(y@),
                    None => None,
                })
                &&& m.has_cover_art == t.has_pictures
            },
        },
{
    let ext = match extension_of(path) {
        Some(e) => e,
        None => String::new(),
    };
    let file_format = to_lowercase(ext.as_str());
    let content_type = crate::error::text(mime_type_for_extension(file_format.as_str()));
    let duration = duration_secs as i32;
    let bit_rate = match bit_rate {
        Some(b) => Some(b as i32),
        None => None,
    };
    match tags {
        None => SongMetadata {
            title: String::new(),
            artist: String::new(),
            album: None,
            album_artist: None,
            track_number: None,
            disc_number: None,
            duration_secs: duration,
            bit_rate,
            file_format,
            content_type,
            year: None,
            has_cover_art: false,
        },
        Some(t) => {
            let year = match &t.year_text {
                Some(y) => parse_year(y.as_str()),
                None => None,
            };
            SongMetadata {
                title: match t.title {
                    Some(s) => s,
                    None => String::new(),
                },
                artist: match t.artist {
                    Some(s) => s,
                    None => String::new(),
                },
                album: t.album,
                album_artist: t.album_artist,
                track_number: match t.track {
                    Some(n) => Some(n as i32),
                    None => None,
                },
                disc_number: match t.disc {
                    Some(n) => Some(n as i32),
                    None => None,
                },
                duration_secs: duration,
                bit_rate,
                file_format,
                content_type,
                year,
                has_cover_art: t.has_pictures,
            }
        },
    }
}

/// A picture dimension as recorded: positive values are kept (as `i32`),
/// zero means unknown.
pub fn dimension(v: u32) -> (d: Option<i32>)
    ensures
        d == (if v > 0 {
            Some(v as i32)
        } else {
            None
        }),
{
    if v > 0 {
        Some(v as i32)
    } else {
        None
    }
}

/// The MIME type recorded for embedded cover art: the picture's own, or
/// `image/jpeg` when it has none.
pub fn cover_mime(mime: Option<String>) -> (m: String)
    ensures
        m@ == (match mime {
            Some(s) => s@,
            None => "image/jpeg"@,
        }),
{
    match mime {
        Some(s) => s,
        None => crate::error::text("image/jpeg"),
    }
}

} // verus!
