//! Which requests need a session, how the bearer token is read and what a
//! session must satisfy to authenticate a request.

use vstd::prelude::*;
use crate::entities::{SessionRow, UserRow};
use crate::error::{text, AppError, ErrorKind};
use crate::text::{chars_of, find_char, has_prefix, str_equals, str_starts_with};

verus! {

/// The user a request is authenticated as.
#[derive(Debug)]
pub struct AuthUser {
    pub id: i32,
    pub username: String,
    /// The user's privilege flags, as the JSON object stored with the user.
    pub privs: String,
    pub scrobbling_enabled: bool,
    pub max_bit_rate: i32,
}

/// The public link of a share, `/api/share/<token>`: a single segment after
/// `/api/share/` that is none of the share endpoints (`list`, `create`,
/// `update`, `delete`), which need a session.
pub open spec fn share_link_path(path: Seq<char>) -> bool {
    &&& has_prefix(path, "/api/share/"@)
    &&& path.len() > "/api/share/"@.len()
    &&& !path.skip("/api/share/"@.len() as int).contains('/')
    &&& path.skip("/api/share/"@.len() as int) != "list"@
    &&& path.skip("/api/share/"@.len() as int) != "create"@
    &&& path.skip("/api/share/"@.len() as int) != "update"@
    &&& path.skip("/api/share/"@.len() as int) != "delete"@
}

/// Whether a request path is served without authentication.
pub open spec fn public_path(path: Seq<char>) -> bool {
    path == "/"@ || has_prefix(path, "/api/health"@) || share_link_path(path)
        || has_prefix(path, "/api/user/login"@) || has_prefix(path, "/api/user/password/reset"@)
}

/// Whether a path is the public link of a share.
fn is_share_link(path: &str) -> (b: bool)
    ensures
        b == share_link_path(path@),
{
    proof {
        reveal_strlit("/api/share/");
    }
    if !str_starts_with(path, "/api/share/") {
        return false;
    }
    let v = chars_of(path);
    if v.len() <= 11 {
        return false;
    }
    let ghost rest = path@.skip(11);
    match find_char(&v, '/', 11, v.len()) {
        Some(k) => {
            assert(rest[k - 11] == '/');
            return false;
        },
        None => {
            assert(!rest.contains('/')) by {
                if rest.contains('/') {
                    let i = choose|i: int| 0 <= i < rest.len() && rest[i] == '/';
                    assert(v@[i + 11] == '/');
                }
            }
        },
    }
    let tail = path.substring_char(11, v.len());
    assert(tail@ =~= rest);
    !(str_equals(tail, "list") || str_equals(tail, "create") || str_equals(tail, "update")
        || str_equals(tail, "delete"))
}

/// Returns `true` when the request path does not require authentication.
pub fn is_public_path(path: &str) -> (b: bool)
    ensures
        b == public_path(path@),
{
    str_equals(path, "/") || str_starts_with(path, "/api/health") || is_share_link(path)
        || str_starts_with(path, "/api/user/login") || str_starts_with(
        path,
        "/api/user/password/reset",
    )
}

/// The token of an `Authorization` header value `Bearer <token>`.
pub open spec fn bearer_of(value: Seq<char>) -> Option<Seq<char>> {
    if has_prefix(value, "Bearer "@) {
        Some(value.skip(7))
    } else {
        None
    }
}

/// Reads the token from an `Authorization` header value.
pub fn bearer_token(value: &str) -> (t: Option<String>)
    ensures
        match t {
            Some(s) => bearer_of(value@) == Some(s@),
            None => bearer_of(value@) is None,
        },
{
    proof {
        reveal_strlit("Bearer ");
    }
    if str_starts_with(value, "Bearer ") {
        let v = chars_of(value);
        Some(value.substring_char(7, v.len()).to_owned())
    } else {
        None
    }
}

/// Reads the token from an `Authorization` header: a missing header and a
/// header without the `Bearer ` scheme are both unauthorized.
pub fn extract_bearer_token(header: Option<&str>) -> (r: Result<String, AppError>)
    ensures
        match header {
            None => r matches Err(e) && e.kind == ErrorKind::Unauthorized,
            Some(h) => match bearer_of(h@) {
                Some(t) => r matches Ok(s) && s@ == t,
                None => r matches Err(e) && e.kind == ErrorKind::Unauthorized,
            },
        },
{
    let h = match header {
        Some(h) => h,
        None => return Err(AppError::unauthorized(text("Missing Authorization header"))),
    };
    match bearer_token(h) {
        Some(t) => Ok(t),
        None => Err(AppError::unauthorized(text("Invalid Authorization header format"))),
    }
}

/// The value of the boolean member `key` of the JSON object in `text`, if
/// `text` parses as JSON and has such a member (`serde_json`).
pub uninterp spec fn json_bool_member(text: Seq<char>, key: Seq<char>) -> Option<bool>;

/// `serde_json::from_str::<Value>(text)`, then `.get(key)` and `.as_bool()`.
#[verifier::external_body]
fn json_flag(text: &str, key: &str) -> (r: Option<bool>)
    ensures
        r == json_bool_member(text@, key@),
{
    match serde_json::from_str::<serde_json::Value>(text) {
        Ok(v) => match v.get(key) {
            Some(f) => f.as_bool(),
            None => None,
        },
        Err(_) => None,
    }
}

/// Whether the user holds privilege `key`: the member is present and `true`.
pub open spec fn holds_privilege(user: AuthUser, key: Seq<char>) -> bool {
    json_bool_member(user.privs@, key) == Some(true)
}

/// Whether the user holds privilege `key`.
pub fn has_privilege(user: &AuthUser, key: &str) -> (b: bool)
    ensures
        b == holds_privilege(*user, key@),
{
    match json_flag(user.privs.as_str(), key) {
        Some(v) => v,
        None => false,
    }
}

/// The checks a request must pass once its session and user are looked up.
pub open spec fn authorization(session: Option<SessionRow>, user: Option<UserRow>, now: i64) -> Option<
    ErrorKind,
> {
    match session {
        None => Some(ErrorKind::Unauthorized),
        Some(s) => match user {
            None => Some(ErrorKind::Unauthorized),
            Some(u) => if s.expires_at < now || u.is_enabled == 0 {
                Some(ErrorKind::Unauthorized)
            } else {
                None
            },
        },
    }
}

/// Authenticates a request: the session must exist, its user must exist, it
/// must not have expired at `now` and the account must be enabled. On
/// success, the session is touched (its last use set to `now`) and the user
/// is returned.
pub fn authorize(session: Option<SessionRow>, user: Option<UserRow>, now: i64) -> (r: Result<
    (AuthUser, SessionRow),
    AppError,
>)
    ensures
        match authorization(session, user, now) {
            Some(k) => r matches Err(e) && e.kind == k,
            None => r matches Ok(p) && {
                let s = session.unwrap();
                let u = user.unwrap();
                &&& p.0.id == u.id
                &&& p.0.username@ == u.username@
                &&& p.0.privs@ == u.privs@
                &&& p.0.scrobbling_enabled == (u.scrobbling_enabled != 0)
                &&& p.0.max_bit_rate == u.max_bit_rate
                &&& p.1 == SessionRow { last_used_at: now, ..s }
            },
        },
{
    let session = match session {
        Some(s) => s,
        None => return Err(AppError::unauthorized(text("Invalid session token"))),
    };
    let user = match user {
        Some(u) => u,
        None => return Err(AppError::unauthorized(text("User not found"))),
    };
    if session.expires_at < now {
        return Err(AppError::unauthorized(text("Session expired")));
    }
    if user.is_enabled == 0 {
        return Err(AppError::unauthorized(text("User account is disabled")));
    }
    let touched = SessionRow { last_used_at: now, ..session };
    let auth_user = AuthUser {
        id: user.id,
        username: user.username,
        privs: user.privs,
        scrobbling_enabled: user.scrobbling_enabled != 0,
        max_bit_rate: user.max_bit_rate,
    };
    Ok((auth_user, touched))
}

} // verus!
