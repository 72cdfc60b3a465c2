//! Library administration: the requests, the replies, and the checks made
//! before a library is changed or scanned.

use vstd::prelude::*;
use crate::entities::LibraryRow;
use crate::error::{text, AppError, ErrorKind};
use crate::middleware::auth::{has_privilege, holds_privilege, AuthUser};
use crate::services::library::DeleteLibraryCounts;
use crate::state::{ScanProgress, ScanState, ScanStatus};

verus! {

/// Adds a library at a path.
#[derive(Debug)]
pub struct AddLibraryRequest {
    pub name: String,
    pub path: String,
}

/// Names a library.
#[derive(Debug)]
pub struct IdRequest {
    pub id: i32,
}

/// Renames or moves a library.
#[derive(Debug)]
pub struct UpdateLibraryRequest {
    pub id: i32,
    pub name: Option<String>,
    pub path: Option<String>,
}

/// Cancels a scan.
#[derive(Debug)]
pub struct CancelScanRequest {
    pub scan_id: String,
}

/// Starts a scan of the given libraries (all of them when none is given).
#[derive(Debug)]
pub struct ScanRequest {
    pub library_ids: Vec<i32>,
}

/// A library as the administrator sees it.
#[derive(Debug)]
pub struct LibraryInfo {
    pub id: i32,
    pub name: String,
    pub path: String,
    pub is_enabled: bool,
    pub watch_enabled: bool,
    pub created_at: i64,
}

/// The reply to a library deletion: what went with it.
#[derive(Debug)]
pub struct DeleteLibraryResponse {
    pub deleted: bool,
    pub songs_count: u64,
    pub albums_count: u64,
    pub artists_count: u64,
}

/// Presents a library row.
pub fn model_to_library_info(m: LibraryRow) -> (i: LibraryInfo)
    ensures
        i.id == m.id && i.name == m.name && i.path == m.path,
        i.is_enabled == (m.is_enabled != 0) && i.watch_enabled == (m.watch_enabled != 0),
        i.created_at == m.created_at,
{
    LibraryInfo {
        id: m.id,
        name: m.name,
        path: m.path,
        is_enabled: m.is_enabled != 0,
        watch_enabled: m.watch_enabled != 0,
        created_at: m.created_at,
    }
}

/// Requires the `edit_library` privilege.
pub fn check_edit_library(user: &AuthUser) -> (r: Result<(), AppError>)
    ensures
        holds_privilege(*user, "edit_library"@) ==> r is Ok,
        !holds_privilege(*user, "edit_library"@) ==> (r matches Err(e) && e.kind == ErrorKind::Forbidden),
{
    if !has_privilege(user, "edit_library") {
        return Err(AppError::forbidden(text("Insufficient privileges: edit_library required")));
    }
    Ok(())
}

/// The name of a scan status.
pub open spec fn status_name(s: ScanStatus) -> Seq<char> {
    match s {
        ScanStatus::Scanning => "scanning"@,
        ScanStatus::Completed => "completed"@,
        ScanStatus::Failed => "failed"@,
        ScanStatus::Cancelled => "cancelled"@,
    }
}

/// The name of a scan status, as reported.
pub fn scan_status_to_str(s: &ScanStatus) -> (n: &'static str)
    ensures
        n@ == status_name(*s),
{
    match s {
        ScanStatus::Scanning => "scanning",
        ScanStatus::Completed => "completed",
        ScanStatus::Failed => "failed",
        ScanStatus::Cancelled => "cancelled",
    }
}

/// Whether a library is being scanned.
pub open spec fn being_scanned(state: ScanState, library_id: i32) -> bool {
    state.active matches Some(p) && p.library_ids@.contains(library_id) && p.status
        == ScanStatus::Scanning
}

/// Checks that watching may be switched on: the library is not being
/// scanned.
#[verifier::loop_isolation(false)]
pub fn check_enable_notify(state: &ScanState, library_id: i32) -> (r: Result<(), AppError>)
    ensures
        being_scanned(*state, library_id) ==> (r matches Err(e) && e.kind == ErrorKind::Conflict),
        !being_scanned(*state, library_id) ==> r is Ok,
{
    match &state.active {
        Some(p) => {
            if p.status != ScanStatus::Scanning {
                return Ok(());
            }
            let mut i: usize = 0;
            while i < p.library_ids.len()
                invariant
                    i <= p.library_ids@.len(),
                    forall|j: int| 0 <= j < i ==> p.library_ids@[j] != library_id,
                decreases p.library_ids@.len() - i,
            {
                if p.library_ids[i] == library_id {
                    assert(p.library_ids@[i as int] == library_id);
                    return Err(AppError::conflict(text("Library is currently being scanned")));
                }
                i += 1;
            }
            Ok(())
        },
        None => Ok(()),
    }
}

/// The reply to a deletion, from what was counted before it.
pub fn delete_library_response(counts: &DeleteLibraryCounts) -> (r: DeleteLibraryResponse)
    ensures
        r.deleted && r.songs_count == counts.songs && r.albums_count == counts.albums
            && r.artists_count == counts.artists,
{
    DeleteLibraryResponse {
        deleted: true,
        songs_count: counts.songs,
        albums_count: counts.albums,
        artists_count: counts.artists,
    }
}

} // verus!
