//! Cover art: the order in which covers are looked for, and the placeholder
//! used when none is found.

use vstd::prelude::*;
use vstd::string::*;
use crate::entities::{AlbumRow, CoverArtRow, SongRow};
use crate::error::text;
use crate::text::str_equals;

verus! {

/// The placeholder cover, an SVG image, shown when no cover is found.
pub const DEFAULT_COVER_SVG: &'static str = "<svg xmlns=\"http://www.w3.org/2000/svg\" viewBox=\"0 0 300 300\"><rect fill=\"#1a1a2e\" width=\"300\" height=\"300\"/><text fill=\"#e0e0e0\" font-size=\"48\" x=\"150\" y=\"160\" text-anchor=\"middle\">\u{266a}</text></svg>";

/// The MIME type of the placeholder cover.
pub const DEFAULT_COVER_MIME: &'static str = "image/svg+xml";

/// The view of a cover lookup: an item type and an item id.
pub open spec fn lookup_view(l: (String, i32)) -> (Seq<char>, i32) {
    (l.0@, l.1)
}

/// The items whose covers are tried, in order, for an item: the item itself;
/// for a known song its album (when it has one) and then its artist; for a
/// known album its artist.
pub open spec fn cover_chain(
    item_type: Seq<char>,
    item_id: i32,
    song: Option<SongRow>,
    album: Option<AlbumRow>,
) -> Seq<(Seq<char>, i32)> {
    let own = seq![(item_type, item_id)];
    if item_type == "song"@ {
        match song {
            Some(s) => own + match s.album_id {
                Some(a) => seq![("album"@, a)],
                None => Seq::empty(),
            } + seq![("artist"@, s.artist_id)],
            None => own,
        }
    } else if item_type == "album"@ {
        match album {
            Some(a) => own + seq![("artist"@, a.artist_id)],
            None => own,
        }
    } else {
        own
    }
}

/// The cover of an existing song is looked for first on the song itself,
/// then on its album exactly when it has one, and always last on its
/// artist; an existing album's cover falls back to its artist's.
pub proof fn lemma_cover_fallbacks(item_id: i32, s: SongRow, a: AlbumRow, album: Option<AlbumRow>, song: Option<SongRow>)
    ensures
        cover_chain("song"@, item_id, Some(s), album)[0] == ("song"@, item_id),
        cover_chain("song"@, item_id, Some(s), album).last() == ("artist"@, s.artist_id),
        cover_chain("song"@, item_id, Some(s), album).len() == if s.album_id is Some {
            3int
        } else {
            2int
        },
        s.album_id matches Some(x) ==> cover_chain("song"@, item_id, Some(s), album)[1] == (
            "album"@,
            x,
        ),
        cover_chain("album"@, item_id, song, Some(a)) == seq![("album"@, item_id), ("artist"@, a.artist_id)],
{
    reveal_strlit("song");
    reveal_strlit("album");
    assert("song"@.len() != "album"@.len());
}

/// Lists the cover lookups for an item; `song` and `album` are the item's
/// row when it is a song or an album and exists.
pub fn cover_lookups(item_type: &str, item_id: i32, song: Option<&SongRow>, album: Option<&AlbumRow>) -> (v: Vec<
    (String, i32),
>)
    ensures
        v@.map_values(|l: (String, i32)| lookup_view(l)) == cover_chain(
            item_type@,
            item_id,
            match song {
                Some(s) => Some(*s),
                None => None,
            },
            match album {
                Some(a) => Some(*a),
                None => None,
            },
        ),
{
    let mut v: Vec<(String, i32)> = Vec::new();
    v.push((text(item_type), item_id));
    if str_equals(item_type, "song") {
        match song {
            Some(s) => {
                match s.album_id {
                    Some(a) => v.push((text("album"), a)),
                    None => {},
                }
                v.push((text("artist"), s.artist_id));
            },
            None => {},
        }
    } else if str_equals(item_type, "album") {
        match album {
            Some(a) => v.push((text("artist"), a.artist_id)),
            None => {},
        }
    }
    let ghost chain = cover_chain(
        item_type@,
        item_id,
        match song {
            Some(s) => Some(*s),
            None => None,
        },
        match album {
            Some(a) => Some(*a),
            None => None,
        },
    );
    assert(v@.map_values(|l: (String, i32)| lookup_view(l)) =~= chain);
    v
}

/// The stored file of a cover record: its MIME type and path, when a path is
/// stored.
pub fn cover_file(cover: Option<CoverArtRow>) -> (r: Option<(String, String)>)
    ensures
        match cover {
            Some(c) => match c.file_path {
                Some(p) => r matches Some(f) && f.0@ == c.mime_type@ && f.1@ == p@,
                None => r is None,
            },
            None => r is None,
        },
{
    match cover {
        Some(c) => match c.file_path {
            Some(p) => Some((c.mime_type, p)),
            None => None,
        },
        None => None,
    }
}

/// The cover that is served: the first one found, else the placeholder.
pub fn cover_or_default(found: Option<(String, Vec<u8>)>) -> (r: (String, Vec<u8>))
    ensures
        match found {
            Some(f) => r.0@ == f.0@ && r.1@ == f.1@,
            None => r.0@ == DEFAULT_COVER_MIME@ && r.1@ == DEFAULT_COVER_SVG.spec_bytes(),
        },
{
    match found {
        Some(f) => f,
        None => (text(DEFAULT_COVER_MIME), DEFAULT_COVER_SVG.as_bytes_vec()),
    }
}

} // verus!
