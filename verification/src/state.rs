//! The state of the library scan shared between the scan task and the
//! endpoints that start, cancel and report it.

use vstd::prelude::*;

verus! {

/// State of the current (or most recent) scan task.
#[derive(Debug)]
pub struct ScanState {
    pub active: Option<ScanProgress>,
}

/// Progress of a running or completed scan.
#[derive(Debug)]
pub struct ScanProgress {
    pub scan_id: String,
    pub library_ids: Vec<i32>,
    pub status: ScanStatus,
    pub files_scanned: i64,
    pub files_total: i64,
    pub started_at: i64,
    pub error: Option<String>,
}

/// Where a scan stands.
#[derive(Clone, Copy, Debug, PartialEq, Eq, Structural)]
pub enum ScanStatus {
    Scanning,
    Completed,
    Failed,
    Cancelled,
}

impl Default for ScanState {
    fn default() -> (s: Self)
        ensures
            s.active is None,
    {
        ScanState { active: None }
    }
}

} // verus!
