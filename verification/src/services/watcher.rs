//! The file watcher's decisions: which library a changed path belongs to,
//! which events are kept, and what a deletion leaves orphaned.

use vstd::prelude::*;
use vstd::string::*;
use crate::entities::SongRow;
use crate::services::metadata::{audio_extension, is_audio_file, path_extension, unicode_lowercase};
use crate::text::str_equals;

verus! {

/// Whether `prefix` is a leading run of whole components of `path`, as
/// `Path::starts_with` decides it.
pub uninterp spec fn path_has_prefix(path: Seq<char>, prefix: Seq<char>) -> bool;

/// `Path::new(path).starts_with(prefix)`.
#[verifier::external_body]
fn path_starts_with(path: &str, prefix: &str) -> (b: bool)
    ensures
        b == path_has_prefix(path@, prefix@),
{
    std::path::Path::new(path).starts_with(prefix)
}

/// The length in bytes of text held in memory.
pub open spec fn byte_len(s: Seq<char>) -> usize {
    vstd::utf8::encode_utf8(s).len() as usize
}

/// The library a path belongs to, with the length of its root: among the
/// libraries whose root is a prefix of the path, one with the longest root,
/// the last such when several tie.
pub open spec fn best_library(path: Seq<char>, libs: Seq<(String, i32)>) -> Option<(usize, i32)>
    decreases libs.len(),
{
    if libs.len() == 0 {
        None
    } else {
        let prev = best_library(path, libs.drop_last());
        let l = libs.last();
        if path_has_prefix(path, l.0@) {
            match prev {
                Some(b) => if byte_len(l.0@) >= b.0 {
                    Some((byte_len(l.0@), l.1))
                } else {
                    prev
                },
                None => Some((byte_len(l.0@), l.1)),
            }
        } else {
            prev
        }
    }
}

/// The id of the library a path belongs to.
pub open spec fn library_of(path: Seq<char>, libs: Seq<(String, i32)>) -> Option<i32> {
    match best_library(path, libs) {
        Some(b) => Some(b.1),
        None => None,
    }
}

/// A path belongs to the library with the longest root that is a prefix of
/// it, and to none when no root is.
pub proof fn lemma_longest_root(path: Seq<char>, libs: Seq<(String, i32)>)
    ensures
        match best_library(path, libs) {
            Some(b) => (exists|k: int|
                0 <= k < libs.len() && path_has_prefix(path, #[trigger] libs[k].0@) && libs[k].1 == b.1
                    && byte_len(libs[k].0@) == b.0) && forall|j: int|
                0 <= j < libs.len() && path_has_prefix(path, #[trigger] libs[j].0@) ==> byte_len(
                    libs[j].0@,
                ) <= b.0,
            None => forall|j: int| 0 <= j < libs.len() ==> !path_has_prefix(path, #[trigger] libs[j].0@),
        },
    decreases libs.len(),
{
    if libs.len() > 0 {
        let init = libs.drop_last();
        lemma_longest_root(path, init);
        let last = libs.len() - 1;
        assert(libs[last] == libs.last());
        assert forall|j: int| 0 <= j < last implies #[trigger] libs[j] == init[j] by {}
        match best_library(path, init) {
            Some(b) => {
                let k = choose|k: int|
                    0 <= k < init.len() && path_has_prefix(path, #[trigger] init[k].0@) && init[k].1
                        == b.1 && byte_len(init[k].0@) == b.0;
                assert(libs[k] == init[k]);
            },
            None => {},
        }
    }
}

/// Finds the library a changed path belongs to.
pub fn resolve_library(path: &str, libs: &Vec<(String, i32)>) -> (r: Option<i32>)
    ensures
        r == library_of(path@, libs@),
{
    let mut best: Option<(usize, i32)> = None;
    let mut i: usize = 0;
    while i < libs.len()
        invariant
            i <= libs@.len(),
            best == best_library(path@, libs@.take(i as int)),
        decreases libs@.len() - i,
    {
        assert(libs@.take(i as int + 1).drop_last() =~= libs@.take(i as int));
        let root = libs[i].0.as_str();
        if path_starts_with(path, root) {
            let n = root.len();
            best = match best {
                Some(b) => if n >= b.0 {
                    Some((n, libs[i].1))
                } else {
                    Some(b)
                },
                None => Some((n, libs[i].1)),
            };
        }
        i += 1;
    }
    assert(libs@.take(i as int) =~= libs@);
    match best {
        Some(b) => Some(b.1),
        None => None,
    }
}

/// The kinds of filesystem event the watcher is told of.
#[derive(Clone, Copy, Debug, PartialEq, Eq, Structural)]
pub enum FsEventKind {
    Any,
    Access,
    Create,
    Modify,
    Remove,
    Other,
}

/// Whether an event is one the watcher acts on: a creation, modification
/// or removal.
pub fn is_relevant_event(kind: FsEventKind) -> (b: bool)
    ensures
        b == (kind == FsEventKind::Create || kind == FsEventKind::Modify || kind
            == FsEventKind::Remove),
{
    match kind {
        FsEventKind::Create | FsEventKind::Modify | FsEventKind::Remove => true,
        _ => false,
    }
}

/// The views of a list of paths.
pub open spec fn path_views(paths: Seq<String>) -> Seq<Seq<char>> {
    paths.map_values(|p: String| p@)
}

/// Records a changed path for the current batch; a path is kept once.
pub fn add_pending(pending: &mut Vec<String>, path: &str)
    ensures
        path_views(old(pending)@).contains(path@) ==> final(pending)@ == old(pending)@,
        !path_views(old(pending)@).contains(path@) ==> path_views(final(pending)@) == path_views(
            old(pending)@,
        ).push(path@),
{
    let mut i: usize = 0;
    while i < pending.len()
        invariant
            i <= pending@.len(),
            pending@ == old(pending)@,
            forall|j: int| 0 <= j < i ==> pending@[j]@ != path@,
        decreases pending@.len() - i,
    {
        if str_equals(pending[i].as_str(), path) {
            assert(path_views(pending@)[i as int] == path@);
            return;
        }
        i += 1;
    }
    assert(!path_views(pending@).contains(path@)) by {
        if path_views(pending@).contains(path@) {
            let j = choose|j: int| 0 <= j < path_views(pending@).len() && path_views(pending@)[j] == path@;
            assert(pending@[j]@ == path@);
        }
    }
    pending.push(path.to_owned());
    assert(path_views(pending@) =~= path_views(old(pending)@).push(path@));
}

/// Whether a batch's paths are all different.
pub open spec fn distinct_paths(paths: Seq<String>) -> bool {
    forall|i: int, j: int| 0 <= i < j < paths.len() ==> (#[trigger] paths[i])@ != (#[trigger] paths[j])@
}

/// Recording a path keeps the paths of a batch distinct.
pub proof fn lemma_add_pending_distinct(before: Seq<String>, after: Seq<String>, path: Seq<char>)
    requires
        distinct_paths(before),
        path_views(before).contains(path) ==> after == before,
        !path_views(before).contains(path) ==> path_views(after) == path_views(before).push(path),
    ensures
        distinct_paths(after),
        path_views(after).contains(path),
{
    if path_views(before).contains(path) {
    } else {
        assert(path_views(after).len() == before.len() + 1);
        assert forall|i: int, j: int| 0 <= i < j < after.len() implies (#[trigger] after[i])@ != (
        #[trigger] after[j])@ by {
            assert(path_views(after)[i] == after[i]@);
            assert(path_views(after)[j] == after[j]@);
            if j < before.len() {
                assert(path_views(before)[i] == before[i]@);
                assert(path_views(before)[j] == before[j]@);
            } else {
                assert(path_views(before)[i] == before[i]@);
            }
        }
        assert(path_views(after)[before.len() as int] == path);
    }
}

/// A changed path to act on, with its library and whether it still exists.
#[derive(Debug)]
pub struct PendingEvent {
    pub path: String,
    pub library_id: i32,
    pub exists: bool,
}

/// Whether a path names an audio file by its extension.
pub open spec fn audio_path(path: Seq<char>) -> bool {
    path_extension(path) matches Some(e) && audio_extension(unicode_lowercase(e))
}

/// The event for a changed path: kept only for an audio file inside a
/// watched library.
pub fn pending_event(path: &str, exists: bool, libs: &Vec<(String, i32)>) -> (r: Option<PendingEvent>)
    ensures
        match library_of(path@, libs@) {
            None => r is None,
            Some(id) => if audio_path(path@) {
                r matches Some(e) && e.path@ == path@ && e.library_id == id && e.exists == exists
            } else {
                r is None
            },
        },
{
    let library_id = match resolve_library(path, libs) {
        Some(id) => id,
        None => return None,
    };
    if !is_audio_file(path) {
        return None;
    }
    Some(PendingEvent { path: path.to_owned(), library_id, exists })
}

/// Whether an event is processed now: its library is not being scanned.
pub fn should_process(library_id: i32, scanning: &Vec<i32>) -> (b: bool)
    ensures
        b == !scanning@.contains(library_id),
{
    let mut i: usize = 0;
    while i < scanning.len()
        invariant
            i <= scanning@.len(),
            forall|j: int| 0 <= j < i ==> scanning@[j] != library_id,
        decreases scanning@.len() - i,
    {
        if scanning[i] == library_id {
            return false;
        }
        i += 1;
    }
    true
}

/// Whether a library still has a song by an artist.
pub open spec fn artist_has_song(songs: Seq<SongRow>, artist_id: i32, library_id: i32) -> bool {
    exists|k: int| 0 <= k < songs.len() && (#[trigger] songs[k]).artist_id == artist_id && songs[k].library_id == library_id
}

/// Whether a library still has a song on an album.
pub open spec fn album_has_song(songs: Seq<SongRow>, album_id: i32, library_id: i32) -> bool {
    exists|k: int|
        0 <= k < songs.len() && (#[trigger] songs[k]).album_id == Some(album_id) && songs[k].library_id
            == library_id
}

fn any_by_artist(songs: &Vec<SongRow>, artist_id: i32, library_id: i32) -> (b: bool)
    ensures
        b == artist_has_song(songs@, artist_id, library_id),
{
    let mut i: usize = 0;
    while i < songs.len()
        invariant
            i <= songs@.len(),
            forall|j: int|
                0 <= j < i ==> !((#[trigger] songs@[j]).artist_id == artist_id && songs@[j].library_id
                    == library_id),
        decreases songs@.len() - i,
    {
        if songs[i].artist_id == artist_id && songs[i].library_id == library_id {
            return true;
        }
        i += 1;
    }
    false
}

fn any_on_album(songs: &Vec<SongRow>, album_id: i32, library_id: i32) -> (b: bool)
    ensures
        b == album_has_song(songs@, album_id, library_id),
{
    let mut i: usize = 0;
    while i < songs.len()
        invariant
            i <= songs@.len(),
            forall|j: int|
                0 <= j < i ==> !((#[trigger] songs@[j]).album_id == Some(album_id) && songs@[j].library_id
                    == library_id),
        decreases songs@.len() - i,
    {
        if songs[i].album_id == Some(album_id) && songs[i].library_id == library_id {
            return true;
        }
        i += 1;
    }
    false
}

/// After a song's file is deleted: its artist and its album, each when the
/// library has no song left by it (`remaining` are the songs left).
pub fn orphans_after_delete(deleted: &SongRow, remaining: &Vec<SongRow>, library_id: i32) -> (r: (
    Option<i32>,
    Option<i32>,
))
    ensures
        r.0 == (if artist_has_song(remaining@, deleted.artist_id, library_id) {
            None
        } else {
            Some(deleted.artist_id)
        }),
        r.1 == (match deleted.album_id {
            Some(a) => if album_has_song(remaining@, a, library_id) {
                None
            } else {
                Some(a)
            },
            None => None,
        }),
{
    let artist = if any_by_artist(remaining, deleted.artist_id, library_id) {
        None
    } else {
        Some(deleted.artist_id)
    };
    let album = match deleted.album_id {
        Some(a) => if any_on_album(remaining, a, library_id) {
            None
        } else {
            Some(a)
        },
        None => None,
    };
    (artist, album)
}

} // verus!
