//! The user's own account endpoints: the requests and replies.

use vstd::prelude::*;
use crate::entities::UserRow;

verus! {

/// Logs in.
#[derive(Debug)]
pub struct LoginRequest {
    pub username: String,
    pub password: String,
}

/// The reply to a login: the session token and the user.
#[derive(Debug)]
pub struct LoginResponse {
    pub token: String,
    pub user: UserInfo,
}

/// A user as they see themselves; `privs` is the JSON text of the
/// privileges.
#[derive(Debug)]
pub struct UserInfo {
    pub id: i32,
    pub username: String,
    pub privs: String,
    pub email: Option<String>,
    pub scrobbling_enabled: bool,
    pub max_bit_rate: i32,
    pub created_at: i64,
    pub updated_at: Option<i64>,
}

/// Changes the user's password.
#[derive(Debug)]
pub struct PasswordEditRequest {
    pub old_password: String,
    pub new_password: String,
}

/// Edits the user's profile; `Some(None)` clears the email.
#[derive(Debug)]
pub struct EditRequest {
    pub email: Option<Option<String>>,
    pub scrobbling_enabled: Option<bool>,
    pub max_bit_rate: Option<i32>,
}

/// Revokes one of the user's sessions.
#[derive(Debug)]
pub struct RevokeRequest {
    pub session_id: String,
}

/// Deletes the user's account.
#[derive(Debug)]
pub struct DeleteAccountRequest {
    pub password: String,
}

/// Presents a user row.
pub fn model_to_user_info(u: UserRow) -> (i: UserInfo)
    ensures
        i.id == u.id && i.username == u.username && i.privs == u.privs && i.email == u.email,
        i.scrobbling_enabled == (u.scrobbling_enabled != 0) && i.max_bit_rate == u.max_bit_rate,
        i.created_at == u.created_at && i.updated_at == Some(u.updated_at),
{
    UserInfo {
        id: u.id,
        username: u.username,
        privs: u.privs,
        email: u.email,
        scrobbling_enabled: u.scrobbling_enabled != 0,
        max_bit_rate: u.max_bit_rate,
        created_at: u.created_at,
        updated_at: Some(u.updated_at),
    }
}

/// The reply to a login.
pub fn login_response(token: String, u: UserRow) -> (r: LoginResponse)
    ensures
        r.token == token,
        r.user == model_to_user_info_spec(u),
{
    LoginResponse { token, user: model_to_user_info(u) }
}

/// What `model_to_user_info` presents.
pub open spec fn model_to_user_info_spec(u: UserRow) -> UserInfo {
    UserInfo {
        id: u.id,
        username: u.username,
        privs: u.privs,
        email: u.email,
        scrobbling_enabled: u.scrobbling_enabled != 0,
        max_bit_rate: u.max_bit_rate,
        created_at: u.created_at,
        updated_at: Some(u.updated_at),
    }
}

} // verus!
