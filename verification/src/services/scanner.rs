//! The library scan: its state machine, the choice of files to (re)read and
//! the rows left behind once files disappear.

use vstd::prelude::*;
use vstd::string::*;
use vstd::hash_map::StringHashMap;
use vstd::hash_set::{HashSetWithView, StringHashSet};
use crate::entities::{AlbumRow, ArtistRow, SongRow};
use crate::error::{text, AppError, ErrorKind};
use crate::services::auth::{draw_alphanumeric, is_ascii_alphanumeric};
use crate::services::metadata::{ascii_lower, ascii_lowercase, is_ascii_text, to_lowercase};
use crate::state::{ScanProgress, ScanState, ScanStatus};
use crate::text::{chars_of, has_prefix, str_equals, trim, trim_bounds};

verus! {

broadcast use vstd::std_specs::hash::group_hash_axioms;

// ---------------------------------------------------------------------------
// Scan identifiers
// ---------------------------------------------------------------------------

/// Whether `c` may follow the prefix of a scan identifier: a lower-case
/// ASCII letter or a digit.
pub open spec fn scan_id_char(c: char) -> bool {
    ('a' <= c && c <= 'z') || ('0' <= c && c <= '9')
}

/// Generates a scan identifier: `scan_` followed by 16 random alphanumeric
/// characters in lower case.
pub fn generate_scan_id() -> (s: String)
    ensures
        s@.len() == 21,
        s@.take(5) == "scan_"@,
        forall|i: int| 5 <= i < 21 ==> scan_id_char(#[trigger] s@[i]),
        exists|drawn: Seq<char>|
            drawn.len() == 16 && (forall|i: int| 0 <= i < 16 ==> is_ascii_alphanumeric(#[trigger] drawn[i]))
                && s@ == "scan_"@ + ascii_lowercase(drawn),
{
    proof {
        reveal_strlit("scan_");
    }
    let drawn = draw_alphanumeric(16);
    assert(is_ascii_text(drawn@)) by {
        assert forall|i: int| 0 <= i < drawn@.len() implies (#[trigger] drawn@[i] as u32) < 128 by {
            assert(is_ascii_alphanumeric(drawn@[i]));
        }
    }
    let lower = to_lowercase(drawn.as_str());
    let s = text("scan_").concat(lower.as_str());
    assert(s@ == "scan_"@ + ascii_lowercase(drawn@));
    assert forall|i: int| 5 <= i < 21 implies scan_id_char(#[trigger] s@[i]) by {
        assert(s@[i] == ascii_lower(drawn@[i - 5]));
        assert(is_ascii_alphanumeric(drawn@[i - 5]));
    }
    assert(s@.take(5) =~= "scan_"@);
    s
}

// ---------------------------------------------------------------------------
// Sort names
// ---------------------------------------------------------------------------

/// Whether `c` lower-cases to the ASCII letter or space `l`. The only
/// characters whose lower case is one of the letters of "the", "a", "an" or a
/// space are those ASCII letters in either case and the space itself.
pub open spec fn ci_char_eq(c: char, l: char) -> bool {
    c == l || ('A' <= c && c <= 'Z' && (c as u32) + 32 == l as u32)
}

/// Whether `s` begins with `p`, ignoring the case of ASCII letters.
pub open spec fn ci_prefix(s: Seq<char>, p: Seq<char>) -> bool {
    p.len() <= s.len() && forall|i: int| 0 <= i < p.len() ==> ci_char_eq(s[i], p[i])
}

/// The name an artist is sorted by: a leading "The ", "A " or "An " (in any
/// case) removed and the rest trimmed; other names unchanged.
pub open spec fn sort_name_of(n: Seq<char>) -> Seq<char> {
    if ci_prefix(n, "the "@) {
        trim(n.skip(4))
    } else if ci_prefix(n, "a "@) {
        trim(n.skip(2))
    } else if ci_prefix(n, "an "@) {
        trim(n.skip(3))
    } else {
        n
    }
}

fn has_ci_prefix(v: &Vec<char>, p: &str) -> (b: bool)
    ensures
        b == ci_prefix(v@, p@),
{
    let q = chars_of(p);
    if q.len() > v.len() {
        return false;
    }
    let mut i: usize = 0;
    while i < q.len()
        invariant
            q@ == p@,
            q@.len() <= v@.len(),
            i <= q@.len(),
            forall|j: int| 0 <= j < i ==> ci_char_eq(v@[j], q@[j]),
        decreases q@.len() - i,
    {
        let c = v[i];
        let l = q[i];
        if !(c == l || ('A' <= c && c <= 'Z' && (c as u32) + 32 == l as u32)) {
            return false;
        }
        i += 1;
    }
    true
}

/// Normalises a name for sorting: strips a leading "The ", "A " or "An ".
pub fn sort_name(name: &str) -> (s: String)
    ensures
        s@ == sort_name_of(name@),
{
    let v = chars_of(name);
    let cut: usize = if has_ci_prefix(&v, "the ") {
        4
    } else if has_ci_prefix(&v, "a ") {
        2
    } else if has_ci_prefix(&v, "an ") {
        3
    } else {
        return name.to_owned();
    };
    proof {
        reveal_strlit("the ");
        reveal_strlit("a ");
        reveal_strlit("an ");
    }
    let (a, b) = trim_bounds(&v, cut, v.len());
    assert(v@.subrange(cut as int, v@.len() as int) =~= name@.skip(cut as int));
    name.substring_char(a, b).to_owned()
}

// ---------------------------------------------------------------------------
// Scan state machine
// ---------------------------------------------------------------------------

/// Whether a scan is running: one is recorded and still scanning.
pub open spec fn scan_running(state: ScanState) -> bool {
    state.active matches Some(p) && p.status == ScanStatus::Scanning
}

/// Starts a scan: refused with a conflict while another scan is running;
/// otherwise records a scanning task for `library_ids` started at `now`,
/// in place of any finished one.
pub fn start_scan(state: &mut ScanState, scan_id: String, library_ids: Vec<i32>, now: i64) -> (r:
    Result<(), AppError>)
    ensures
        scan_running(*old(state)) ==> (r matches Err(e) && e.kind == ErrorKind::Conflict
            && final(state).active == old(state).active),
        !scan_running(*old(state)) ==> (r is Ok && (final(state).active matches Some(p) && p
            == ScanProgress {
            scan_id,
            library_ids,
            status: ScanStatus::Scanning,
            files_scanned: 0,
            files_total: 0,
            started_at: now,
            error: None,
        })),
{
    let running = match &state.active {
        Some(p) => p.status == ScanStatus::Scanning,
        None => false,
    };
    if running {
        return Err(AppError::conflict(text("A scan is already in progress")));
    }
    state.active = Some(
        ScanProgress {
            scan_id,
            library_ids,
            status: ScanStatus::Scanning,
            files_scanned: 0,
            files_total: 0,
            started_at: now,
            error: None,
        },
    );
    Ok(())
}

/// Whether the recorded scan is `scan_id`.
pub open spec fn is_current(state: ScanState, scan_id: Seq<char>) -> bool {
    state.active matches Some(p) && p.scan_id@ == scan_id
}

/// Cancels scan `scan_id` if it is the recorded one and still running;
/// otherwise it is not found (or not running) and nothing changes.
pub fn cancel_scan(state: &mut ScanState, scan_id: &str) -> (r: Result<(), AppError>)
    ensures
        is_current(*old(state), scan_id@) && scan_running(*old(state)) ==> (r is Ok
            && final(state).active == Some(
            ScanProgress { status: ScanStatus::Cancelled, ..old(state).active.unwrap() },
        )),
        !(is_current(*old(state), scan_id@) && scan_running(*old(state))) ==> (r matches Err(e)
            && e.kind == ErrorKind::NotFound && final(state).active == old(state).active),
{
    match state.active.take() {
        Some(p) => {
            if str_equals(p.scan_id.as_str(), scan_id) && p.status == ScanStatus::Scanning {
                state.active = Some(ScanProgress { status: ScanStatus::Cancelled, ..p });
                Ok(())
            } else {
                state.active = Some(p);
                Err(AppError::not_found(text("Scan not found or not running")))
            }
        },
        None => Err(AppError::not_found(text("Scan not found or not running"))),
    }
}

/// Whether scan `scan_id` has been cancelled.
pub fn is_cancelled(state: &ScanState, scan_id: &str) -> (b: bool)
    ensures
        b == (is_current(*state, scan_id@) && state.active.unwrap().status
            == ScanStatus::Cancelled),
{
    match &state.active {
        Some(p) => str_equals(p.scan_id.as_str(), scan_id) && p.status == ScanStatus::Cancelled,
        None => false,
    }
}

/// Records the failure of scan `scan_id`, if it is the recorded one.
pub fn fail_scan(state: &mut ScanState, scan_id: &str, error: String)
    ensures
        is_current(*old(state), scan_id@) ==> final(state).active == Some(
            ScanProgress {
                status: ScanStatus::Failed,
                error: Some(error),
                ..old(state).active.unwrap()
            },
        ),
        !is_current(*old(state), scan_id@) ==> final(state).active == old(state).active,
{
    match state.active.take() {
        Some(p) => {
            if str_equals(p.scan_id.as_str(), scan_id) {
                state.active = Some(
                    ScanProgress { status: ScanStatus::Failed, error: Some(error), ..p },
                );
            } else {
                state.active = Some(p);
            }
        },
        None => {},
    }
}

/// Records the completion of scan `scan_id` over `total` files, if it is the
/// recorded one.
pub fn complete_scan(state: &mut ScanState, scan_id: &str, total: i64)
    ensures
        is_current(*old(state), scan_id@) ==> final(state).active == Some(
            ScanProgress {
                status: ScanStatus::Completed,
                files_scanned: total,
                files_total: total,
                ..old(state).active.unwrap()
            },
        ),
        !is_current(*old(state), scan_id@) ==> final(state).active == old(state).active,
{
    match state.active.take() {
        Some(p) => {
            if str_equals(p.scan_id.as_str(), scan_id) {
                state.active = Some(
                    ScanProgress {
                        status: ScanStatus::Completed,
                        files_scanned: total,
                        files_total: total,
                        ..p
                    },
                );
            } else {
                state.active = Some(p);
            }
        },
        None => {},
    }
}

/// Records the number of files the recorded scan has to read.
pub fn set_files_total(state: &mut ScanState, total: i64)
    ensures
        match old(state).active {
            Some(p) => final(state).active == Some(ScanProgress { files_total: total, ..p }),
            None => final(state).active is None,
        },
{
    match state.active.take() {
        Some(p) => {
            state.active = Some(ScanProgress { files_total: total, ..p });
        },
        None => {},
    }
}

/// Records the number of files the recorded scan has read.
pub fn set_files_scanned(state: &mut ScanState, scanned: i64)
    ensures
        match old(state).active {
            Some(p) => final(state).active == Some(ScanProgress { files_scanned: scanned, ..p }),
            None => final(state).active is None,
        },
{
    match state.active.take() {
        Some(p) => {
            state.active = Some(ScanProgress { files_scanned: scanned, ..p });
        },
        None => {},
    }
}

/// Whether progress is reported after reading the file at position `i`:
/// every tenth file, starting with the first.
pub fn reports_progress(i: usize) -> (b: bool)
    ensures
        b == (i % 10 == 0),
{
    i % 10 == 0
}

/// The libraries under a running scan: those of the recorded scan while it
/// is scanning, none otherwise.
pub fn active_scan_libraries(state: &ScanState) -> (ids: Vec<i32>)
    ensures
        match state.active {
            Some(p) => if p.status == ScanStatus::Scanning {
                ids@ == p.library_ids@
            } else {
                ids@.len() == 0
            },
            None => ids@.len() == 0,
        },
{
    match &state.active {
        Some(p) => if p.status == ScanStatus::Scanning {
            p.library_ids.clone()
        } else {
            Vec::new()
        },
        None => Vec::new(),
    }
}

/// Whether `library_id` is under a running scan.
#[verifier::loop_isolation(false)]
pub fn library_is_scanning(state: &ScanState, library_id: i32) -> (b: bool)
    ensures
        b == (state.active matches Some(p) && p.status == ScanStatus::Scanning
            && p.library_ids@.contains(library_id)),
{
    match &state.active {
        Some(p) => {
            if p.status != ScanStatus::Scanning {
                return false;
            }
            let mut i: usize = 0;
            while i < p.library_ids.len()
                invariant
                    i <= p.library_ids@.len(),
                    forall|j: int| 0 <= j < i ==> p.library_ids@[j] != library_id,
                decreases p.library_ids@.len() - i,
            {
                if p.library_ids[i] == library_id {
                    assert(p.library_ids@[i as int] == library_id);
                    return true;
                }
                i += 1;
            }
            false
        },
        None => false,
    }
}

// ---------------------------------------------------------------------------
// Quick scan: which files to read
// ---------------------------------------------------------------------------

/// An audio file found on disk.
#[derive(Debug)]
pub struct WalkEntry {
    pub file_path: String,
    pub mtime_ms: i64,
    pub size_bytes: i64,
}

/// The size recorded for each known path (a later song with the same path
/// overrides an earlier one; a song without a size counts as 0 bytes).
pub open spec fn known_sizes(songs: Seq<SongRow>) -> Map<Seq<char>, i64>
    decreases songs.len(),
{
    if songs.len() == 0 {
        Map::empty()
    } else {
        known_sizes(songs.drop_last()).insert(
            songs.last().file_path@,
            match songs.last().size_bytes {
                Some(b) => b,
                None => 0,
            },
        )
    }
}

/// Whether a file needs reading: it is new, or its size differs from the
/// recorded one.
pub open spec fn needs_scan(e: WalkEntry, known: Map<Seq<char>, i64>) -> bool {
    !known.contains_key(e.file_path@) || known[e.file_path@] != e.size_bytes
}

/// The paths of the files to read, in walk order.
pub open spec fn scan_targets(entries: Seq<WalkEntry>, known: Map<Seq<char>, i64>) -> Seq<
    Seq<char>,
>
    decreases entries.len(),
{
    if entries.len() == 0 {
        Seq::empty()
    } else {
        scan_targets(entries.drop_last(), known) + if needs_scan(entries.last(), known) {
            seq![entries.last().file_path@]
        } else {
            Seq::empty()
        }
    }
}

/// The files picked for reading are exactly the walked files that are new or
/// whose size differs from the recorded one, grown or shrunk: every such
/// file is picked, and every picked path is such a file's.
pub proof fn lemma_scan_targets_new_or_changed(entries: Seq<WalkEntry>, known: Map<Seq<char>, i64>)
    ensures
        forall|j: int|
            0 <= j < entries.len() && (!known.contains_key((#[trigger] entries[j]).file_path@)
                || known[entries[j].file_path@] != entries[j].size_bytes) ==> scan_targets(
                entries,
                known,
            ).contains(entries[j].file_path@),
        forall|p: Seq<char>|
            #[trigger] scan_targets(entries, known).contains(p) ==> exists|j: int|
                0 <= j < entries.len() && (#[trigger] entries[j]).file_path@ == p && (
                !known.contains_key(p) || known[p] != entries[j].size_bytes),
    decreases entries.len(),
{
    if entries.len() > 0 {
        let pre = entries.drop_last();
        let last = entries.last();
        lemma_scan_targets_new_or_changed(pre, known);
        let before = scan_targets(pre, known);
        let added = if needs_scan(last, known) {
            seq![last.file_path@]
        } else {
            Seq::<Seq<char>>::empty()
        };
        assert(scan_targets(entries, known) == before + added);
        assert forall|j: int|
            0 <= j < entries.len() && (!known.contains_key((#[trigger] entries[j]).file_path@)
                || known[entries[j].file_path@] != entries[j].size_bytes) implies scan_targets(
            entries,
            known,
        ).contains(entries[j].file_path@) by {
            if j < entries.len() - 1 {
                assert(entries[j] == pre[j]);
                let q = choose|q: int| 0 <= q < before.len() && before[q] == pre[j].file_path@;
                assert((before + added)[q] == before[q]);
            } else {
                assert((before + added)[before.len() as int] == last.file_path@);
            }
        }
        assert forall|p: Seq<char>|
            #[trigger] scan_targets(entries, known).contains(p) implies exists|j: int|
                0 <= j < entries.len() && (#[trigger] entries[j]).file_path@ == p && (
                !known.contains_key(p) || known[p] != entries[j].size_bytes) by {
            let q = choose|q: int| 0 <= q < (before + added).len() && (before + added)[q] == p;
            if q < before.len() {
                assert(before[q] == p);
                assert(before.contains(p));
                let j = choose|j: int|
                    0 <= j < pre.len() && (#[trigger] pre[j]).file_path@ == p && (
                    !known.contains_key(p) || known[p] != pre[j].size_bytes);
                assert(entries[j] == pre[j]);
            } else {
                assert(p == last.file_path@);
                assert(entries[entries.len() - 1] == last);
            }
        }
    }
}

/// The model of a list of walk entries: their paths.
pub open spec fn entry_paths(v: Seq<WalkEntry>) -> Seq<Seq<char>> {
    v.map_values(|e: WalkEntry| e.file_path@)
}

/// The files a scan reads: new files and files whose size changed.
pub fn files_to_scan(entries: &Vec<WalkEntry>, existing: &Vec<SongRow>) -> (r: Vec<WalkEntry>)
    ensures
        entry_paths(r@) == scan_targets(entries@, known_sizes(existing@)),
        forall|k: int|
            0 <= k < r@.len() ==> exists|j: int|
                0 <= j < entries@.len() && (#[trigger] r@[k]).size_bytes == entries@[j].size_bytes
                    && r@[k].mtime_ms == entries@[j].mtime_ms && r@[k].file_path@
                    == entries@[j].file_path@,
{
    let mut known: StringHashMap<i64> = StringHashMap::new();
    let mut i: usize = 0;
    while i < existing.len()
        invariant
            i <= existing@.len(),
            known@ == known_sizes(existing@.take(i as int)),
        decreases existing@.len() - i,
    {
        let s = &existing[i];
        let size = match s.size_bytes {
            Some(b) => b,
            None => 0,
        };
        known.insert(s.file_path.clone(), size);
        assert(existing@.take(i as int + 1).drop_last() =~= existing@.take(i as int));
        i += 1;
    }
    assert(existing@.take(i as int) =~= existing@);
    let ghost m = known_sizes(existing@);
    let mut r: Vec<WalkEntry> = Vec::new();
    let mut k: usize = 0;
    while k < entries.len()
        invariant
            k <= entries@.len(),
            known@ == m,
            entry_paths(r@) == scan_targets(entries@.take(k as int), m),
            forall|q: int|
                0 <= q < r@.len() ==> exists|j: int|
                    0 <= j < entries@.len() && (#[trigger] r@[q]).size_bytes
                        == entries@[j].size_bytes && r@[q].mtime_ms == entries@[j].mtime_ms
                        && r@[q].file_path@ == entries@[j].file_path@,
        decreases entries@.len() - k,
    {
        let e = &entries[k];
        assert(entries@.take(k as int + 1).drop_last() =~= entries@.take(k as int));
        let ghost before = r@;
        let scan = match known.get(e.file_path.as_str()) {
            Some(size) => *size != e.size_bytes,
            None => true,
        };
        if scan {
            r.push(
                WalkEntry {
                    file_path: e.file_path.clone(),
                    mtime_ms: e.mtime_ms,
                    size_bytes: e.size_bytes,
                },
            );
            assert(entry_paths(r@) =~= entry_paths(before).push(e.file_path@));
            assert(r@[r@.len() - 1].file_path@ == entries@[k as int].file_path@);
        } else {
            assert(r@ == before);
        }
        k += 1;
    }
    assert(entries@.take(k as int) =~= entries@);
    r
}

// ---------------------------------------------------------------------------
// Cleanup: rows whose files are gone
// ---------------------------------------------------------------------------

/// The paths found on disk.
pub open spec fn walked_paths(entries: Seq<WalkEntry>) -> Set<Seq<char>> {
    Set::new(
        |p: Seq<char>|
            exists|j: int| #![trigger entries[j]] 0 <= j < entries.len() && entries[j].file_path@ == p,
    )
}

/// The ids of the songs whose file was not found on disk, in row order.
pub open spec fn orphan_song_ids(songs: Seq<SongRow>, on_disk: Set<Seq<char>>) -> Seq<i32>
    decreases songs.len(),
{
    if songs.len() == 0 {
        Seq::empty()
    } else {
        orphan_song_ids(songs.drop_last(), on_disk) + if on_disk.contains(
            songs.last().file_path@,
        ) {
            Seq::empty()
        } else {
            seq![songs.last().id]
        }
    }
}

/// The songs of a library whose file is no longer on disk.
pub fn orphan_songs(entries: &Vec<WalkEntry>, songs: &Vec<SongRow>) -> (ids: Vec<i32>)
    ensures
        ids@ == orphan_song_ids(songs@, walked_paths(entries@)),
{
    let mut paths = StringHashSet::new();
    let mut i: usize = 0;
    while i < entries.len()
        invariant
            i <= entries@.len(),
            paths@ == walked_paths(entries@.take(i as int)),
        decreases entries@.len() - i,
    {
        paths.insert(entries[i].file_path.clone());
        assert(paths@ =~= walked_paths(entries@.take(i as int + 1))) by {
            assert forall|p: Seq<char>| walked_paths(entries@.take(i as int + 1)).contains(
                p,
            ) implies paths@.contains(p) by {
                let t = entries@.take(i as int + 1);
                let j = choose|j: int| #![trigger t[j]] 0 <= j < i + 1 && t[j].file_path@ == p;
                if j < i {
                    assert(entries@.take(i as int)[j] == entries@.take(i as int + 1)[j]);
                }
            }
            assert forall|p: Seq<char>| paths@.contains(p) implies walked_paths(
                entries@.take(i as int + 1),
            ).contains(p) by {
                if p != entries@[i as int].file_path@ {
                    let t0 = entries@.take(i as int);
                    let j = choose|j: int| #![trigger t0[j]] 0 <= j < i && t0[j].file_path@ == p;
                    assert(entries@.take(i as int)[j] == entries@.take(i as int + 1)[j]);
                } else {
                    assert(entries@.take(i as int + 1)[i as int] == entries@[i as int]);
                }
            }
        }
        i += 1;
    }
    assert(entries@.take(i as int) =~= entries@);
    let ghost on_disk = walked_paths(entries@);
    let mut ids: Vec<i32> = Vec::new();
    let mut k: usize = 0;
    while k < songs.len()
        invariant
            k <= songs@.len(),
            paths@ == on_disk,
            ids@ == orphan_song_ids(songs@.take(k as int), on_disk),
        decreases songs@.len() - k,
    {
        assert(songs@.take(k as int + 1).drop_last() =~= songs@.take(k as int));
        if !paths.contains(songs[k].file_path.as_str()) {
            ids.push(songs[k].id);
        }
        k += 1;
    }
    assert(songs@.take(k as int) =~= songs@);
    ids
}

/// The ids in `ids` that none of `keep` names, in order.
pub open spec fn ids_not_in(ids: Seq<i32>, keep: Set<i32>) -> Seq<i32>
    decreases ids.len(),
{
    if ids.len() == 0 {
        Seq::empty()
    } else {
        ids_not_in(ids.drop_last(), keep) + if keep.contains(ids.last()) {
            Seq::empty()
        } else {
            seq![ids.last()]
        }
    }
}

/// The artists still named by some song.
pub open spec fn song_artist_ids(songs: Seq<SongRow>) -> Set<i32> {
    Set::new(|a: i32| exists|j: int| #![trigger songs[j]] 0 <= j < songs.len() && songs[j].artist_id == a)
}

/// The albums still named by some song.
pub open spec fn song_album_ids(songs: Seq<SongRow>) -> Set<i32> {
    Set::new(
        |a: i32| exists|j: int| #![trigger songs[j]] 0 <= j < songs.len() && songs[j].album_id == Some(a),
    )
}

/// The ids of artist rows.
pub open spec fn artist_row_ids(rows: Seq<ArtistRow>) -> Seq<i32> {
    rows.map_values(|r: ArtistRow| r.id)
}

/// The ids of album rows.
pub open spec fn album_row_ids(rows: Seq<AlbumRow>) -> Seq<i32> {
    rows.map_values(|r: AlbumRow| r.id)
}

fn keep_not_in(ids: &Vec<i32>, keep: &HashSetWithView<i32>) -> (r: Vec<i32>)
    ensures
        r@ == ids_not_in(ids@, keep@),
{
    let mut r: Vec<i32> = Vec::new();
    let mut k: usize = 0;
    while k < ids.len()
        invariant
            k <= ids@.len(),
            r@ == ids_not_in(ids@.take(k as int), keep@),
        decreases ids@.len() - k,
    {
        assert(ids@.take(k as int + 1).drop_last() =~= ids@.take(k as int));
        if !keep.contains(&ids[k]) {
            r.push(ids[k]);
        }
        k += 1;
    }
    assert(ids@.take(k as int) =~= ids@);
    r
}

/// The artists of a library left without songs.
pub fn orphan_artists(remaining: &Vec<SongRow>, artists: &Vec<ArtistRow>) -> (ids: Vec<i32>)
    ensures
        ids@ == ids_not_in(artist_row_ids(artists@), song_artist_ids(remaining@)),
{
    let mut keep: HashSetWithView<i32> = HashSetWithView::new();
    let mut i: usize = 0;
    while i < remaining.len()
        invariant
            i <= remaining@.len(),
            keep@ == song_artist_ids(remaining@.take(i as int)),
        decreases remaining@.len() - i,
    {
        keep.insert(remaining[i].artist_id);
        assert(keep@ =~= song_artist_ids(remaining@.take(i as int + 1))) by {
            let t = remaining@.take(i as int + 1);
            assert forall|a: i32| song_artist_ids(t).contains(a) implies keep@.contains(a) by {
                let j = choose|j: int| #![trigger t[j]] 0 <= j < t.len() && t[j].artist_id == a;
                if j < i {
                    assert(remaining@.take(i as int)[j] == t[j]);
                }
            }
            assert forall|a: i32| keep@.contains(a) implies song_artist_ids(t).contains(a) by {
                if a != remaining@[i as int].artist_id {
                    let t0 = remaining@.take(i as int);
                    let j = choose|j: int| #![trigger t0[j]] 0 <= j < i && t0[j].artist_id == a;
                    assert(remaining@.take(i as int)[j] == t[j]);
                } else {
                    assert(t[i as int] == remaining@[i as int]);
                }
            }
        }
        i += 1;
    }
    assert(remaining@.take(i as int) =~= remaining@);
    let mut all: Vec<i32> = Vec::new();
    let mut k: usize = 0;
    while k < artists.len()
        invariant
            k <= artists@.len(),
            all@ == artist_row_ids(artists@.take(k as int)),
        decreases artists@.len() - k,
    {
        all.push(artists[k].id);
        assert(artist_row_ids(artists@.take(k as int + 1)) =~= artist_row_ids(
            artists@.take(k as int),
        ).push(artists@[k as int].id));
        k += 1;
    }
    assert(artists@.take(k as int) =~= artists@);
    keep_not_in(&all, &keep)
}

/// The albums of a library left without songs.
pub fn orphan_albums(remaining: &Vec<SongRow>, albums: &Vec<AlbumRow>) -> (ids: Vec<i32>)
    ensures
        ids@ == ids_not_in(album_row_ids(albums@), song_album_ids(remaining@)),
{
    let mut keep: HashSetWithView<i32> = HashSetWithView::new();
    let mut i: usize = 0;
    while i < remaining.len()
        invariant
            i <= remaining@.len(),
            keep@ == song_album_ids(remaining@.take(i as int)),
        decreases remaining@.len() - i,
    {
        let ghost t = remaining@.take(i as int + 1);
        match remaining[i].album_id {
            Some(a) => {
                keep.insert(a);
            },
            None => {},
        }
        assert(keep@ =~= song_album_ids(t)) by {
            assert forall|a: i32| song_album_ids(t).contains(a) implies keep@.contains(a) by {
                let j = choose|j: int| #![trigger t[j]] 0 <= j < t.len() && t[j].album_id == Some(a);
                if j < i {
                    assert(remaining@.take(i as int)[j] == t[j]);
                }
            }
            assert forall|a: i32| keep@.contains(a) implies song_album_ids(t).contains(a) by {
                if remaining@[i as int].album_id != Some(a) {
                    let t0 = remaining@.take(i as int);
                    let j = choose|j: int|
                        #![trigger t0[j]]
                        0 <= j < i && t0[j].album_id == Some(a);
                    assert(remaining@.take(i as int)[j] == t[j]);
                } else {
                    assert(t[i as int] == remaining@[i as int]);
                }
            }
        }
        i += 1;
    }
    assert(remaining@.take(i as int) =~= remaining@);
    let mut all: Vec<i32> = Vec::new();
    let mut k: usize = 0;
    while k < albums.len()
        invariant
            k <= albums@.len(),
            all@ == album_row_ids(albums@.take(k as int)),
        decreases albums@.len() - k,
    {
        all.push(albums[k].id);
        assert(album_row_ids(albums@.take(k as int + 1)) =~= album_row_ids(
            albums@.take(k as int),
        ).push(albums@[k as int].id));
        k += 1;
    }
    assert(albums@.take(k as int) =~= albums@);
    keep_not_in(&all, &keep)
}

} // verus!
