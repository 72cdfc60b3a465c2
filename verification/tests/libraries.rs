use moosic::entities::{LibraryRow, UserLibraryRow};
use moosic::error::ErrorKind;
use moosic::handlers::library::library_entries;
use moosic::services::library::{
    libraries_for_user, new_library, set_user_library, set_watch, update_library, user_enabled,
};

fn lib(id: i32, path: &str, enabled: i32) -> LibraryRow {
    LibraryRow {
        id,
        name: format!("L{id}"),
        path: path.to_string(),
        is_enabled: enabled,
        watch_enabled: 0,
        created_at: 5,
    }
}

fn ul(library_id: i32, enabled: i32) -> UserLibraryRow {
    UserLibraryRow { user_id: 1, library_id, is_enabled: enabled }
}

#[test]
fn libraries_default_to_enabled_for_a_user() {
    let rows = vec![ul(2, 0), ul(2, 1), ul(3, 1)];
    assert!(!user_enabled(&rows, 2));
    assert!(user_enabled(&rows, 3));
    assert!(user_enabled(&rows, 9));
}

#[test]
fn listing_combines_switch_and_counts() {
    let libs = vec![lib(1, "/a", 1), lib(2, "/b", 0)];
    let st = libraries_for_user(&libs, &vec![ul(1, 0)], &vec![7, 3]);
    assert_eq!((st[0].is_enabled, st[0].song_count), (false, 7));
    assert_eq!((st[1].is_enabled, st[1].song_count), (true, 3));
    let entries = library_entries(&st, &libs);
    assert_eq!((entries[0].is_enabled, entries[0].user_enabled), (true, false));
    assert_eq!((entries[1].is_enabled, entries[1].user_enabled), (false, true));
}

#[test]
fn user_switch_rows() {
    let r = set_user_library(None, 4, 5, false);
    assert_eq!((r.user_id, r.library_id, r.is_enabled), (4, 5, 0));
    let s = set_user_library(Some(ul(5, 0)), 4, 5, true);
    assert_eq!(s.is_enabled, 1);
}

#[test]
fn paths_must_be_unique() {
    let existing = lib(1, "/a", 1);
    assert_eq!(new_library(Some(&existing), "x", "/a", 0).unwrap_err().kind, ErrorKind::Conflict);
    let l = new_library(None, "x", "/n", 9).unwrap();
    assert_eq!((l.is_enabled, l.watch_enabled, l.created_at), (1, 0, 9));
    assert_eq!(update_library(None, None, None, None).unwrap_err().kind, ErrorKind::NotFound);
    let moved = update_library(Some(lib(2, "/b", 1)), None, Some("/a".to_string()), Some(lib(1, "/a", 1)));
    assert_eq!(moved.unwrap_err().kind, ErrorKind::Conflict);
    let same = update_library(Some(lib(2, "/b", 1)), Some("new".to_string()), Some("/b".to_string()), Some(lib(2, "/b", 1)));
    let same = same.unwrap();
    assert_eq!((same.name.as_str(), same.path.as_str()), ("new", "/b"));
    let free = update_library(Some(lib(2, "/b", 1)), None, Some("/c".to_string()), None).unwrap();
    assert_eq!(free.path, "/c");
}

#[test]
fn watching_switches() {
    assert_eq!(set_watch(None, true).unwrap_err().kind, ErrorKind::NotFound);
    assert_eq!(set_watch(Some(lib(1, "/a", 1)), true).unwrap().watch_enabled, 1);
}
