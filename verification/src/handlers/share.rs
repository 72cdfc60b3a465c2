//! Share endpoints: the requests and replies, and who counts as a share
//! administrator.

use vstd::prelude::*;
use crate::middleware::auth::{has_privilege, holds_privilege, AuthUser};

verus! {

/// Shares an item; `kind` is its `type` field.
#[derive(Debug)]
pub struct CreateShareRequest {
    pub kind: String,
    pub item_id: i32,
    pub description: Option<String>,
    pub expires_in_days: Option<i32>,
}

/// Edits a share; `Some(None)` clears the description.
#[derive(Debug)]
pub struct UpdateShareRequest {
    pub id: i32,
    pub description: Option<Option<String>>,
    pub expires_in_days: Option<i32>,
}

/// Names a share.
#[derive(Debug)]
pub struct IdRequest {
    pub id: i32,
}

/// Deletes several shares.
#[derive(Debug)]
pub struct BatchDeleteRequest {
    pub ids: Vec<i32>,
}

/// A share as stored, with the shared item's title.
#[derive(Debug)]
pub struct ShareEntry {
    pub id: i32,
    pub owner_id: i32,
    pub item_type: String,
    pub item_id: i32,
    pub description: Option<String>,
    pub token: String,
    pub url: String,
    pub visit_count: i32,
    pub last_visited_at: Option<i64>,
    pub expires_at: Option<i64>,
    pub created_at: i64,
    pub title: Option<String>,
}

/// Whether a user may delete other users' shares: they hold the
/// `edit_library` privilege.
pub fn is_share_admin(user: &AuthUser) -> (b: bool)
    ensures
        b == holds_privilege(*user, "edit_library"@),
{
    has_privilege(user, "edit_library")
}

} // verus!
