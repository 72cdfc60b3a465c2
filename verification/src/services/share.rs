//! Public share links: their rules of validity, expiry, visits and
//! ownership, and how a share is presented.

use vstd::prelude::*;
use vstd::string::*;
use crate::entities::ShareRow;
use crate::error::{text, AppError, ErrorKind};
use crate::services::auth::{draw_alphanumeric, is_ascii_alphanumeric};
use crate::text::str_equals;

verus! {

/// Metadata for a single share; `kind` is its `type` field.
#[derive(Debug)]
pub struct ShareItem {
    pub id: i32,
    pub kind: String,
    pub item_id: i32,
    pub title: String,
    pub description: Option<String>,
    pub token: String,
    pub url: String,
    pub visit_count: i32,
    pub last_visited_at: Option<i64>,
    pub expires_at: Option<i64>,
    pub created_at: i64,
}

/// The kinds of item that can be shared.
#[derive(Clone, Copy, Debug, PartialEq, Eq, Structural)]
pub enum ShareKind {
    Song,
    Album,
    Playlist,
}

/// The kind an item type names.
pub open spec fn share_kind_of(t: Seq<char>) -> Option<ShareKind> {
    if t == "song"@ {
        Some(ShareKind::Song)
    } else if t == "album"@ {
        Some(ShareKind::Album)
    } else if t == "playlist"@ {
        Some(ShareKind::Playlist)
    } else {
        None
    }
}

/// Reads the kind an item type names.
pub fn share_kind(t: &str) -> (k: Option<ShareKind>)
    ensures
        k == share_kind_of(t@),
{
    if str_equals(t, "song") {
        Some(ShareKind::Song)
    } else if str_equals(t, "album") {
        Some(ShareKind::Album)
    } else if str_equals(t, "playlist") {
        Some(ShareKind::Playlist)
    } else {
        None
    }
}

/// Checks that `item_type` is one of song, album and playlist.
pub fn validate_item_type(item_type: &str) -> (r: Result<ShareKind, AppError>)
    ensures
        match share_kind_of(item_type@) {
            Some(k) => r matches Ok(v) && v == k,
            None => r matches Err(e) && e.kind == ErrorKind::ValidationError,
        },
{
    match share_kind(item_type) {
        Some(k) => Ok(k),
        None => Err(
            AppError::validation_error(
                text("Invalid item type '").concat(item_type).concat(
                    "'. Must be one of: song, album, playlist",
                ),
            ),
        ),
    }
}

/// The kind of a stored share whose title is looked up; an unknown stored
/// type is a validation error.
pub fn title_source(item_type: &str) -> (r: Result<ShareKind, AppError>)
    ensures
        match share_kind_of(item_type@) {
            Some(k) => r matches Ok(v) && v == k,
            None => r matches Err(e) && e.kind == ErrorKind::ValidationError,
        },
{
    match share_kind(item_type) {
        Some(k) => Ok(k),
        None => Err(AppError::validation_error(text("Unknown item type: ").concat(item_type))),
    }
}

/// Generates a random 32-character alphanumeric share token: 32 draws of
/// `rand::distributions::Alphanumeric`.
pub fn generate_share_token() -> (t: String)
    ensures
        t@.len() == 32,
        forall|i: int| 0 <= i < 32 ==> is_ascii_alphanumeric(#[trigger] t@[i]),
{
    draw_alphanumeric(32)
}

/// The public address of a share: `/api/share/<token>`.
pub fn share_url(token: &str) -> (u: String)
    ensures
        u@ == "/api/share/"@ + token@,
{
    text("/api/share/").concat(token)
}

/// Milliseconds in a day.
pub open spec fn day_ms() -> i64 {
    86400000
}

/// The expiry of a share made at `now` for `days` days (wrapping at the ends
/// of `i64`).
pub open spec fn expiry_after(now: i64, days: i32) -> i64 {
    now.wrapping_add(((days as i64) * 86400000) as i64)
}

/// The expiry of a new share: `days` days from `now` when given.
pub fn expires_at_after(now: i64, days: Option<i32>) -> (e: Option<i64>)
    ensures
        e == (match days {
            Some(d) => Some(expiry_after(now, d)),
            None => None,
        }),
{
    match days {
        Some(d) => Some(now.wrapping_add((d as i64) * 86400000)),
        None => None,
    }
}

/// A new share of an item by `owner_id`, made at `now`.
pub fn new_share(
    owner_id: i32,
    item_type: &str,
    item_id: i32,
    description: Option<&str>,
    token: String,
    expires_in_days: Option<i32>,
    now: i64,
) -> (s: ShareRow)
    ensures
        s.owner_id == owner_id && s.item_type@ == item_type@ && s.item_id == item_id,
        match description {
            Some(d) => s.description matches Some(x) && x@ == d@,
            None => s.description is None,
        },
        s.token@ == token@ && s.visit_count == 0 && s.last_visited_at is None,
        s.expires_at == (match expires_in_days {
            Some(d) => Some(expiry_after(now, d)),
            None => None,
        }),
        s.created_at == now,
{
    ShareRow {
        id: 0,
        owner_id,
        item_type: item_type.to_owned(),
        item_id,
        description: match description {
            Some(d) => Some(d.to_owned()),
            None => None,
        },
        token,
        visit_count: 0,
        last_visited_at: None,
        expires_at: expires_at_after(now, expires_in_days),
        created_at: now,
    }
}

/// Whether a share has expired at `now`.
pub open spec fn share_expired(s: ShareRow, now: i64) -> bool {
    s.expires_at matches Some(e) && e < now
}

/// Resolves a share by token: a missing share is not found, an expired one
/// is gone; otherwise the visit is recorded (one more visit, last visited
/// `now`).
pub fn visit_share(share: Option<ShareRow>, now: i64) -> (r: Result<ShareRow, AppError>)
    ensures
        match share {
            None => r matches Err(e) && e.kind == ErrorKind::NotFound,
            Some(s) => if share_expired(s, now) {
                r matches Err(e) && e.kind == ErrorKind::Gone
            } else {
                r matches Ok(v) && v == ShareRow {
                    visit_count: s.visit_count.wrapping_add(1),
                    last_visited_at: Some(now),
                    ..s
                }
            },
        },
{
    let s = match share {
        Some(s) => s,
        None => return Err(AppError::not_found(text("Share not found"))),
    };
    match s.expires_at {
        Some(e) => if e < now {
            return Err(AppError::gone(text("Share has expired")));
        },
        None => {},
    }
    let visits = s.visit_count.wrapping_add(1);
    Ok(ShareRow { visit_count: visits, last_visited_at: Some(now), ..s })
}

/// Updates a share owned by `owner_id`: `description` replaces the
/// description when given, `expires_in_days` recomputes the expiry from
/// `now` when given. Another user's share is forbidden; a missing one is not
/// found.
pub fn update_share(
    share: Option<ShareRow>,
    owner_id: i32,
    description: Option<Option<String>>,
    expires_in_days: Option<i32>,
    now: i64,
) -> (r: Result<ShareRow, AppError>)
    ensures
        match share {
            None => r matches Err(e) && e.kind == ErrorKind::NotFound,
            Some(s) => if s.owner_id != owner_id {
                r matches Err(e) && e.kind == ErrorKind::Forbidden
            } else {
                r matches Ok(v) && v == ShareRow {
                    description: match description {
                        Some(d) => d,
                        None => s.description,
                    },
                    expires_at: match expires_in_days {
                        Some(d) => Some(expiry_after(now, d)),
                        None => s.expires_at,
                    },
                    ..s
                }
            },
        },
{
    let s = match share {
        Some(s) => s,
        None => return Err(AppError::not_found(text("Share not found"))),
    };
    if s.owner_id != owner_id {
        return Err(AppError::forbidden(text("Cannot update another user's share")));
    }
    let description = match description {
        Some(d) => d,
        None => s.description,
    };
    let expires_at = match expires_in_days {
        Some(d) => Some(now.wrapping_add((d as i64) * 86400000)),
        None => s.expires_at,
    };
    Ok(ShareRow { description, expires_at, ..s })
}

/// Whether `user_id` may delete a share owned by `owner_id`.
pub open spec fn may_delete(owner_id: i32, user_id: i32, is_admin: bool) -> bool {
    owner_id == user_id || is_admin
}

/// Checks a deletion: the share must exist and belong to the user, unless
/// the user is an administrator.
pub fn delete_check(share: Option<ShareRow>, user_id: i32, is_admin: bool) -> (r: Result<
    i32,
    AppError,
>)
    ensures
        match share {
            None => r matches Err(e) && e.kind == ErrorKind::NotFound,
            Some(s) => if may_delete(s.owner_id, user_id, is_admin) {
                r matches Ok(id) && id == s.id
            } else {
                r matches Err(e) && e.kind == ErrorKind::Forbidden
            },
        },
{
    let s = match share {
        Some(s) => s,
        None => return Err(AppError::not_found(text("Share not found"))),
    };
    if s.owner_id != user_id && !is_admin {
        return Err(AppError::forbidden(text("Cannot delete another user's share")));
    }
    Ok(s.id)
}

/// The ids of the shares a batch deletion removes: those the user may delete.
pub open spec fn deletable_ids(shares: Seq<ShareRow>, user_id: i32, is_admin: bool) -> Seq<i32>
    decreases shares.len(),
{
    if shares.len() == 0 {
        Seq::empty()
    } else {
        deletable_ids(shares.drop_last(), user_id, is_admin) + if may_delete(
            shares.last().owner_id,
            user_id,
            is_admin,
        ) {
            seq![shares.last().id]
        } else {
            Seq::empty()
        }
    }
}

/// Selects the shares of a batch the user may delete.
pub fn batch_deletable(shares: &Vec<ShareRow>, user_id: i32, is_admin: bool) -> (ids: Vec<i32>)
    ensures
        ids@ == deletable_ids(shares@, user_id, is_admin),
{
    let mut ids: Vec<i32> = Vec::new();
    let mut k: usize = 0;
    while k < shares.len()
        invariant
            k <= shares@.len(),
            ids@ == deletable_ids(shares@.take(k as int), user_id, is_admin),
        decreases shares@.len() - k,
    {
        assert(shares@.take(k as int + 1).drop_last() =~= shares@.take(k as int));
        if shares[k].owner_id == user_id || is_admin {
            ids.push(shares[k].id);
        }
        k += 1;
    }
    assert(shares@.take(k as int) =~= shares@);
    ids
}

/// A share as presented, with the title of the shared item.
pub fn share_to_item(share: &ShareRow, title: String) -> (i: ShareItem)
    ensures
        i.id == share.id && i.kind@ == share.item_type@ && i.item_id == share.item_id,
        i.title@ == title@,
        i.description == share.description,
        i.token@ == share.token@,
        i.url@ == "/api/share/"@ + share.token@,
        i.visit_count == share.visit_count && i.last_visited_at == share.last_visited_at,
        i.expires_at == share.expires_at && i.created_at == share.created_at,
{
    ShareItem {
        id: share.id,
        kind: share.item_type.clone(),
        item_id: share.item_id,
        title,
        description: share.description.clone(),
        token: share.token.clone(),
        url: share_url(share.token.as_str()),
        visit_count: share.visit_count,
        last_visited_at: share.last_visited_at,
        expires_at: share.expires_at,
        created_at: share.created_at,
    }
}

} // verus!
