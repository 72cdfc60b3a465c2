//! User administration: the requests, the reply, and the checks made before
//! an account is changed.

use vstd::prelude::*;
use crate::entities::UserRow;
use crate::error::{text, AppError, ErrorKind};
use crate::middleware::auth::{has_privilege, holds_privilege, AuthUser};

verus! {

/// Names a user.
#[derive(Debug)]
pub struct IdRequest {
    pub id: i32,
}

/// Sets another user's password.
#[derive(Debug)]
pub struct AdminPasswordEditRequest {
    pub id: i32,
    pub new_password: String,
}

/// Edits another user's profile; `Some(None)` clears the email.
#[derive(Debug)]
pub struct AdminEditUserRequest {
    pub id: i32,
    pub email: Option<Option<String>>,
    pub scrobbling_enabled: Option<bool>,
    pub max_bit_rate: Option<i32>,
}

/// A user as the administrator sees it; `privs` is the JSON text of the
/// privileges.
#[derive(Debug)]
pub struct AdminUserInfo {
    pub id: i32,
    pub username: String,
    pub privs: String,
    pub email: Option<String>,
    pub scrobbling_enabled: bool,
    pub max_bit_rate: i32,
    pub created_at: i64,
    pub updated_at: Option<i64>,
}

/// Requires the `edit_user` privilege.
pub fn check_edit_user(user: &AuthUser) -> (r: Result<(), AppError>)
    ensures
        holds_privilege(*user, "edit_user"@) ==> r is Ok,
        !holds_privilege(*user, "edit_user"@) ==> (r matches Err(e) && e.kind == ErrorKind::Forbidden),
{
    if !has_privilege(user, "edit_user") {
        return Err(AppError::forbidden(text("Insufficient privileges: edit_user required")));
    }
    Ok(())
}

/// An administrator cannot delete their own account.
pub fn check_delete_target(user_id: i32, target_id: i32) -> (r: Result<(), AppError>)
    ensures
        user_id == target_id ==> (r matches Err(e) && e.kind == ErrorKind::ValidationError),
        user_id != target_id ==> r is Ok,
{
    if user_id == target_id {
        return Err(AppError::validation_error(text("Cannot delete yourself")));
    }
    Ok(())
}

/// An administrator cannot disable their own account.
pub fn check_disable_target(user_id: i32, target_id: i32) -> (r: Result<(), AppError>)
    ensures
        user_id == target_id ==> (r matches Err(e) && e.kind == ErrorKind::ValidationError),
        user_id != target_id ==> r is Ok,
{
    if user_id == target_id {
        return Err(AppError::validation_error(text("Cannot disable yourself")));
    }
    Ok(())
}

/// The settings of a new account: scrobbling off and no bit-rate limit
/// unless given, and no privileges unless given (as JSON text).
pub fn new_user_settings(scrobbling_enabled: Option<bool>, max_bit_rate: Option<i32>, privs: Option<String>) -> (r: (
    bool,
    i32,
    String,
))
    ensures
        r.0 == (match scrobbling_enabled {
            Some(b) => b,
            None => false,
        }),
        r.1 == (match max_bit_rate {
            Some(m) => m,
            None => 0,
        }),
        r.2@ == (match privs {
            Some(p) => p@,
            None => "{}"@,
        }),
{
    let s = match scrobbling_enabled {
        Some(b) => b,
        None => false,
    };
    let m = match max_bit_rate {
        Some(m) => m,
        None => 0,
    };
    let p = match privs {
        Some(p) => p,
        None => text("{}"),
    };
    (s, m, p)
}

/// Presents a user row.
pub fn admin_user_info(u: UserRow) -> (i: AdminUserInfo)
    ensures
        i.id == u.id && i.username == u.username && i.privs == u.privs && i.email == u.email,
        i.scrobbling_enabled == (u.scrobbling_enabled != 0) && i.max_bit_rate == u.max_bit_rate,
        i.created_at == u.created_at && i.updated_at == Some(u.updated_at),
{
    AdminUserInfo {
        id: u.id,
        username: u.username,
        privs: u.privs,
        email: u.email,
        scrobbling_enabled: u.scrobbling_enabled != 0,
        max_bit_rate: u.max_bit_rate,
        created_at: u.created_at,
        updated_at: Some(u.updated_at),
    }
}

} // verus!
