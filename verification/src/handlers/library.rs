//! The user's library endpoints: the listing reply.

use vstd::prelude::*;
use crate::entities::LibraryRow;
use crate::services::library::LibraryWithStatus;
use crate::services::lookup::{find_last, last_index_of};

verus! {

/// Names a library.
#[derive(Debug)]
pub struct IdRequest {
    pub id: i32,
}

/// A library in the user's listing: whether it is enabled at all, whether
/// the user has it enabled, and its size.
#[derive(Debug)]
pub struct LibraryEntry {
    pub id: i32,
    pub name: String,
    pub path: String,
    pub is_enabled: bool,
    pub user_enabled: bool,
    pub song_count: i64,
}

/// The ids of library rows.
pub open spec fn library_ids(libs: Seq<LibraryRow>) -> Seq<i32> {
    libs.map_values(|l: LibraryRow| l.id)
}

/// Whether library `id` is enabled (the last row for it decides; an unknown
/// library is not).
pub open spec fn library_enabled(libs: Seq<LibraryRow>, id: i32) -> bool {
    match last_index_of(library_ids(libs), id) {
        Some(k) => libs[k].is_enabled != 0,
        None => false,
    }
}

/// The view of a listing entry.
pub open spec fn entry_view(e: LibraryEntry) -> (i32, Seq<char>, Seq<char>, bool, bool, i64) {
    (e.id, e.name@, e.path@, e.is_enabled, e.user_enabled, e.song_count)
}

/// The user's listing: each library with the user's switch and whether the
/// library itself is enabled.
pub fn library_entries(statuses: &Vec<LibraryWithStatus>, libs: &Vec<LibraryRow>) -> (out: Vec<LibraryEntry>)
    ensures
        out@.len() == statuses@.len(),
        forall|k: int|
            0 <= k < statuses@.len() ==> entry_view(#[trigger] out@[k]) == (
                statuses@[k].id,
                statuses@[k].name@,
                statuses@[k].path@,
                library_enabled(libs@, statuses@[k].id),
                statuses@[k].is_enabled,
                statuses@[k].song_count,
            ),
{
    let mut ids: Vec<i32> = Vec::new();
    let mut j: usize = 0;
    while j < libs.len()
        invariant
            j <= libs@.len(),
            ids@ == library_ids(libs@.take(j as int)),
        decreases libs@.len() - j,
    {
        ids.push(libs[j].id);
        assert(library_ids(libs@.take(j as int + 1)) =~= library_ids(libs@.take(j as int)).push(
            libs@[j as int].id,
        ));
        j += 1;
    }
    assert(libs@.take(j as int) =~= libs@);
    let mut out: Vec<LibraryEntry> = Vec::new();
    let mut i: usize = 0;
    while i < statuses.len()
        invariant
            i <= statuses@.len(),
            ids@ == library_ids(libs@),
            out@.len() == i,
            forall|k: int|
                0 <= k < i ==> entry_view(#[trigger] out@[k]) == (
                    statuses@[k].id,
                    statuses@[k].name@,
                    statuses@[k].path@,
                    library_enabled(libs@, statuses@[k].id),
                    statuses@[k].is_enabled,
                    statuses@[k].song_count,
                ),
        decreases statuses@.len() - i,
    {
        let s = &statuses[i];
        let enabled = match find_last(&ids, s.id) {
            Some(k) => libs[k].is_enabled != 0,
            None => false,
        };
        out.push(
            LibraryEntry {
                id: s.id,
                name: s.name.clone(),
                path: s.path.clone(),
                is_enabled: enabled,
                user_enabled: s.is_enabled,
                song_count: s.song_count,
            },
        );
        i += 1;
    }
    out
}

} // verus!
