//! User accounts: creation with a unique name, and the edits of a profile,
//! password, privileges and status.

use vstd::prelude::*;
use crate::entities::UserRow;
use crate::error::{text, AppError, ErrorKind};
use crate::services::annotation::opt_view;
use crate::services::auth::{hash_password, verify_outcome};

verus! {

/// The stored form of a boolean flag.
pub open spec fn flag(b: bool) -> i32 {
    if b { 1 } else { 0 }
}

fn flag_of(b: bool) -> (f: i32)
    ensures
        f == flag(b),
{
    if b { 1 } else { 0 }
}

/// A user that must exist.
pub fn require_user(found: Option<UserRow>) -> (r: Result<UserRow, AppError>)
    ensures
        match found {
            Some(u) => r matches Ok(x) && x == u,
            None => r matches Err(e) && e.kind == ErrorKind::NotFound,
        },
{
    match found {
        Some(u) => Ok(u),
        None => Err(AppError::not_found(text("User not found"))),
    }
}

/// A new, enabled user, unless the name is taken (`existing` is the user
/// already holding it).
pub fn new_user(
    existing: Option<&UserRow>,
    username: &str,
    password_hash: &str,
    email: Option<&str>,
    privs: &str,
    scrobbling_enabled: bool,
    max_bit_rate: i32,
    now: i64,
) -> (r: Result<UserRow, AppError>)
    ensures
        match existing {
            Some(_) => r matches Err(e) && e.kind == ErrorKind::Conflict,
            None => r matches Ok(u) && u.id == 0 && u.username@ == username@ && u.password_hash@
                == password_hash@ && opt_view(u.email) == (match email {
                Some(m) => Some(m@),
                None => None::<Seq<char>>,
            }) && u.privs@ == privs@ && u.scrobbling_enabled == flag(scrobbling_enabled)
                && u.max_bit_rate == max_bit_rate && u.is_enabled == 1 && u.created_at == now
                && u.updated_at == now,
        },
{
    if existing.is_some() {
        return Err(AppError::conflict(text("Username already exists")));
    }
    Ok(
        UserRow {
            id: 0,
            username: username.to_owned(),
            password_hash: password_hash.to_owned(),
            email: match email {
                Some(m) => Some(m.to_owned()),
                None => None,
            },
            privs: privs.to_owned(),
            scrobbling_enabled: flag_of(scrobbling_enabled),
            max_bit_rate,
            is_enabled: 1,
            created_at: now,
            updated_at: now,
        },
    )
}

/// A profile after an edit: each given field replaces the stored one
/// (`Some(None)` clears the email); the user is marked updated at `now`.
pub open spec fn edited_profile(
    u: UserRow,
    email: Option<Option<String>>,
    scrobbling_enabled: Option<bool>,
    max_bit_rate: Option<i32>,
    now: i64,
) -> UserRow {
    UserRow {
        email: match email {
            Some(m) => m,
            None => u.email,
        },
        scrobbling_enabled: match scrobbling_enabled {
            Some(b) => flag(b),
            None => u.scrobbling_enabled,
        },
        max_bit_rate: match max_bit_rate {
            Some(m) => m,
            None => u.max_bit_rate,
        },
        updated_at: now,
        ..u
    }
}

/// Edits a user's profile (their own, or any user's by an administrator).
pub fn update_profile(
    target: Option<UserRow>,
    email: Option<Option<String>>,
    scrobbling_enabled: Option<bool>,
    max_bit_rate: Option<i32>,
    now: i64,
) -> (r: Result<UserRow, AppError>)
    ensures
        match target {
            Some(u) => r matches Ok(x) && x == edited_profile(u, email, scrobbling_enabled, max_bit_rate, now),
            None => r matches Err(e) && e.kind == ErrorKind::NotFound,
        },
{
    let u = require_user(target)?;
    let email = match email {
        Some(m) => m,
        None => u.email,
    };
    let scrobbling_enabled = match scrobbling_enabled {
        Some(b) => flag_of(b),
        None => u.scrobbling_enabled,
    };
    let max_bit_rate = match max_bit_rate {
        Some(m) => m,
        None => u.max_bit_rate,
    };
    Ok(UserRow { email, scrobbling_enabled, max_bit_rate, updated_at: now, ..u })
}

/// Replaces a user's password hash.
pub fn set_password(target: Option<UserRow>, password_hash: &str, now: i64) -> (r: Result<UserRow, AppError>)
    ensures
        match target {
            Some(u) => r matches Ok(x) && x.password_hash@ == password_hash@ && x == UserRow {
                password_hash: x.password_hash,
                updated_at: now,
                ..u
            },
            None => r matches Err(e) && e.kind == ErrorKind::NotFound,
        },
{
    let u = require_user(target)?;
    Ok(UserRow { password_hash: password_hash.to_owned(), updated_at: now, ..u })
}

/// Replaces a user's privileges (a JSON object).
pub fn set_privs(target: Option<UserRow>, privs: &str, now: i64) -> (r: Result<UserRow, AppError>)
    ensures
        match target {
            Some(u) => r matches Ok(x) && x.privs@ == privs@ && x == UserRow {
                privs: x.privs,
                updated_at: now,
                ..u
            },
            None => r matches Err(e) && e.kind == ErrorKind::NotFound,
        },
{
    let u = require_user(target)?;
    Ok(UserRow { privs: privs.to_owned(), updated_at: now, ..u })
}

/// Enables or disables a user account.
pub fn set_enabled(target: Option<UserRow>, enabled: bool, now: i64) -> (r: Result<UserRow, AppError>)
    ensures
        match target {
            Some(u) => r matches Ok(x) && x == UserRow { is_enabled: flag(enabled), updated_at: now, ..u },
            None => r matches Err(e) && e.kind == ErrorKind::NotFound,
        },
{
    let u = require_user(target)?;
    Ok(UserRow { is_enabled: flag_of(enabled), updated_at: now, ..u })
}

/// The name of the account made on first start.
pub const DEFAULT_ADMIN_NAME: &'static str = "admin";

/// The password of the account made on first start.
pub const DEFAULT_ADMIN_PASSWORD: &'static str = "123456";

/// The privileges of the account made on first start: every one.
pub const DEFAULT_ADMIN_PRIVS: &'static str = "{\"edit_user\":true,\"edit_library\":true,\"read_server\":true}";

/// The account made on first start, when no user exists yet: `admin` with
/// the default password, every privilege, scrobbling on and no bit-rate
/// limit. Nothing is made when a user exists.
pub fn seed_admin_user(existing: Option<&UserRow>, now: i64) -> (r: Result<Option<UserRow>, AppError>)
    ensures
        existing is Some ==> r matches Ok(None),
        existing is None ==> match r {
            Ok(Some(u)) => u.id == 0 && u.username@ == DEFAULT_ADMIN_NAME@ && verify_outcome(
                DEFAULT_ADMIN_PASSWORD@,
                u.password_hash@,
            ) == Some(true) && u.email is None && u.privs@ == DEFAULT_ADMIN_PRIVS@
                && u.scrobbling_enabled == 1 && u.max_bit_rate == 0 && u.is_enabled == 1
                && u.created_at == now && u.updated_at == now,
            Ok(None) => false,
            Err(e) => e.kind == ErrorKind::Internal,
        },
{
    if existing.is_some() {
        return Ok(None);
    }
    let hash = hash_password(DEFAULT_ADMIN_PASSWORD)?;
    Ok(
        Some(
            UserRow {
                id: 0,
                username: text(DEFAULT_ADMIN_NAME),
                password_hash: hash,
                email: None,
                privs: text(DEFAULT_ADMIN_PRIVS),
                scrobbling_enabled: 1,
                max_bit_rate: 0,
                is_enabled: 1,
                created_at: now,
                updated_at: now,
            },
        ),
    )
}

} // verus!
