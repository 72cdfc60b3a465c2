//! Libraries: per-user switches, path uniqueness and the admin edits.

use vstd::prelude::*;
use crate::entities::{LibraryRow, UserLibraryRow};
use crate::error::{text, AppError, ErrorKind};
use crate::text::str_equals;

verus! {

/// A library as a user sees it: whether they have it enabled, and its size.
#[derive(Debug)]
pub struct LibraryWithStatus {
    pub id: i32,
    pub name: String,
    pub path: String,
    pub is_enabled: bool,
    pub song_count: i64,
    pub created_at: i64,
}

/// What was removed with a library.
#[derive(Debug)]
pub struct DeleteLibraryCounts {
    pub songs: u64,
    pub albums: u64,
    pub artists: u64,
}

/// Whether a user has a library enabled: the first of their rows for it
/// decides, and a library without a row is enabled.
pub open spec fn enabled_for(user_libs: Seq<UserLibraryRow>, library_id: i32) -> bool
    decreases user_libs.len(),
{
    if user_libs.len() == 0 {
        true
    } else if user_libs[0].library_id == library_id {
        user_libs[0].is_enabled != 0
    } else {
        enabled_for(user_libs.drop_first(), library_id)
    }
}

/// Reads whether a user has a library enabled from their rows.
pub fn user_enabled(user_libs: &Vec<UserLibraryRow>, library_id: i32) -> (b: bool)
    ensures
        b == enabled_for(user_libs@, library_id),
{
    let mut i: usize = 0;
    assert(user_libs@.skip(0) =~= user_libs@);
    while i < user_libs.len()
        invariant
            i <= user_libs@.len(),
            enabled_for(user_libs@, library_id) == enabled_for(user_libs@.skip(i as int), library_id),
        decreases user_libs@.len() - i,
    {
        assert(user_libs@.skip(i as int).drop_first() =~= user_libs@.skip(i as int + 1));
        if user_libs[i].library_id == library_id {
            return user_libs[i].is_enabled != 0;
        }
        i += 1;
    }
    assert(user_libs@.skip(i as int) =~= Seq::<UserLibraryRow>::empty());
    true
}

/// The view of a library with status.
pub open spec fn status_view(l: LibraryWithStatus) -> (i32, Seq<char>, Seq<char>, bool, i64, i64) {
    (l.id, l.name@, l.path@, l.is_enabled, l.song_count, l.created_at)
}

/// Lists libraries with the user's switch and each library's song count
/// (`song_counts[k]` for `libraries[k]`).
pub fn libraries_for_user(
    libraries: &Vec<LibraryRow>,
    user_libs: &Vec<UserLibraryRow>,
    song_counts: &Vec<u64>,
) -> (out: Vec<LibraryWithStatus>)
    requires
        song_counts@.len() == libraries@.len(),
    ensures
        out@.len() == libraries@.len(),
        forall|k: int|
            0 <= k < libraries@.len() ==> status_view(#[trigger] out@[k]) == (
                libraries@[k].id,
                libraries@[k].name@,
                libraries@[k].path@,
                enabled_for(user_libs@, libraries@[k].id),
                song_counts@[k] as i64,
                libraries@[k].created_at,
            ),
{
    let mut out: Vec<LibraryWithStatus> = Vec::new();
    let mut i: usize = 0;
    while i < libraries.len()
        invariant
            i <= libraries@.len(),
            song_counts@.len() == libraries@.len(),
            out@.len() == i,
            forall|k: int|
                0 <= k < i ==> status_view(#[trigger] out@[k]) == (
                    libraries@[k].id,
                    libraries@[k].name@,
                    libraries@[k].path@,
                    enabled_for(user_libs@, libraries@[k].id),
                    song_counts@[k] as i64,
                    libraries@[k].created_at,
                ),
        decreases libraries@.len() - i,
    {
        let lib = &libraries[i];
        out.push(
            LibraryWithStatus {
                id: lib.id,
                name: lib.name.clone(),
                path: lib.path.clone(),
                is_enabled: user_enabled(user_libs, lib.id),
                song_count: song_counts[i] as i64,
                created_at: lib.created_at,
            },
        );
        i += 1;
    }
    out
}

/// Sets a user's switch for a library: the existing row is updated, or a new
/// one is made.
pub fn set_user_library(existing: Option<UserLibraryRow>, user_id: i32, library_id: i32, enabled: bool) -> (r:
    UserLibraryRow)
    ensures
        r.is_enabled == (if enabled { 1i32 } else { 0i32 }),
        match existing {
            Some(e) => r.user_id == e.user_id && r.library_id == e.library_id,
            None => r.user_id == user_id && r.library_id == library_id,
        },
{
    let flag: i32 = if enabled { 1 } else { 0 };
    match existing {
        Some(e) => UserLibraryRow { is_enabled: flag, ..e },
        None => UserLibraryRow { user_id, library_id, is_enabled: flag },
    }
}

/// A new library at `path`, unless a library already has that path.
pub fn new_library(existing_with_path: Option<&LibraryRow>, name: &str, path: &str, now: i64) -> (r: Result<
    LibraryRow,
    AppError,
>)
    ensures
        match existing_with_path {
            Some(_) => r matches Err(e) && e.kind == ErrorKind::Conflict,
            None => r matches Ok(l) && l.id == 0 && l.name@ == name@ && l.path@ == path@
                && l.is_enabled == 1 && l.watch_enabled == 0 && l.created_at == now,
        },
{
    if existing_with_path.is_some() {
        return Err(AppError::conflict(text("Library path already exists")));
    }
    Ok(
        LibraryRow {
            id: 0,
            name: name.to_owned(),
            path: path.to_owned(),
            is_enabled: 1,
            watch_enabled: 0,
            created_at: now,
        },
    )
}

/// Whether an edit moves a library to another path, which must then be free.
pub open spec fn moves_path(target: LibraryRow, path: Option<String>) -> bool {
    path matches Some(p) && p@ != target.path@
}

/// Whether an edit moves a library to another path.
pub fn changes_path(target: &LibraryRow, path: &Option<String>) -> (b: bool)
    ensures
        b == moves_path(*target, *path),
{
    match path {
        Some(p) => !str_equals(p.as_str(), target.path.as_str()),
        None => false,
    }
}

/// Edits a library's name and path. A missing library is not found; a move
/// to a path another library holds (`holder`, looked up only for a move) is
/// a conflict.
pub fn update_library(
    target: Option<LibraryRow>,
    name: Option<String>,
    path: Option<String>,
    holder: Option<LibraryRow>,
) -> (r: Result<LibraryRow, AppError>)
    ensures
        match target {
            None => r matches Err(e) && e.kind == ErrorKind::NotFound,
            Some(t) => if moves_path(t, path) && holder is Some {
                r matches Err(e) && e.kind == ErrorKind::Conflict
            } else {
                r matches Ok(l) && l == LibraryRow {
                    name: match name {
                        Some(n) => n,
                        None => t.name,
                    },
                    path: match path {
                        Some(p) => p,
                        None => t.path,
                    },
                    ..t
                }
            },
        },
{
    let t = match target {
        Some(t) => t,
        None => return Err(AppError::not_found(text("Library not found"))),
    };
    if changes_path(&t, &path) && holder.is_some() {
        return Err(AppError::conflict(text("Library path already exists")));
    }
    let name = match name {
        Some(n) => n,
        None => t.name,
    };
    let path = match path {
        Some(p) => p,
        None => t.path,
    };
    Ok(LibraryRow { name, path, ..t })
}

/// A library that must exist.
pub fn require_library(found: Option<LibraryRow>) -> (r: Result<LibraryRow, AppError>)
    ensures
        match found {
            Some(l) => r matches Ok(x) && x == l,
            None => r matches Err(e) && e.kind == ErrorKind::NotFound,
        },
{
    match found {
        Some(l) => Ok(l),
        None => Err(AppError::not_found(text("Library not found"))),
    }
}

/// Switches watching of an existing library on or off.
pub fn set_watch(found: Option<LibraryRow>, enabled: bool) -> (r: Result<LibraryRow, AppError>)
    ensures
        match found {
            Some(l) => r matches Ok(x) && x == LibraryRow {
                watch_enabled: if enabled { 1i32 } else { 0i32 },
                ..l
            },
            None => r matches Err(e) && e.kind == ErrorKind::NotFound,
        },
{
    let l = require_library(found)?;
    let flag: i32 = if enabled { 1 } else { 0 };
    Ok(LibraryRow { watch_enabled: flag, ..l })
}

} // verus!
