use moosic::entities::{LibraryRow, UserRow};
use moosic::error::ErrorKind;
use moosic::handlers::admin::library::{
    check_edit_library, check_enable_notify, model_to_library_info, scan_status_to_str,
};
use moosic::handlers::admin::user::{
    admin_user_info, check_delete_target, check_disable_target, check_edit_user, new_user_settings,
};
use moosic::handlers::share::is_share_admin;
use moosic::handlers::user::{login_response, model_to_user_info};
use moosic::middleware::auth::AuthUser;
use moosic::services::auth::verify_password;
use moosic::services::user::{
    new_user, require_user, seed_admin_user, set_enabled, set_password, set_privs, update_profile,
};
use moosic::state::{ScanProgress, ScanState, ScanStatus};

fn user() -> UserRow {
    UserRow {
        id: 3,
        username: "bob".to_string(),
        password_hash: "h".to_string(),
        email: Some("b@x".to_string()),
        privs: "{}".to_string(),
        scrobbling_enabled: 0,
        max_bit_rate: 128,
        is_enabled: 1,
        created_at: 1,
        updated_at: 2,
    }
}

fn auth(privs: &str) -> AuthUser {
    AuthUser { id: 1, username: "a".to_string(), privs: privs.to_string(), scrobbling_enabled: true, max_bit_rate: 0 }
}

#[test]
fn admin_endpoints_need_their_privilege() {
    assert_eq!(check_edit_library(&auth("{}")).unwrap_err().kind, ErrorKind::Forbidden);
    assert!(check_edit_library(&auth("{\"edit_library\":true}")).is_ok());
    assert_eq!(check_edit_user(&auth("{\"edit_user\":false}")).unwrap_err().kind, ErrorKind::Forbidden);
    assert!(check_edit_user(&auth("{\"edit_user\":true}")).is_ok());
    assert!(is_share_admin(&auth("{\"edit_library\":true}")));
    assert!(!is_share_admin(&auth("not json")));
}

#[test]
fn administrators_cannot_remove_themselves() {
    assert_eq!(check_delete_target(1, 1).unwrap_err().kind, ErrorKind::ValidationError);
    assert!(check_delete_target(1, 2).is_ok());
    assert_eq!(check_disable_target(4, 4).unwrap_err().message, "Cannot disable yourself");
    assert!(check_disable_target(4, 5).is_ok());
}

#[test]
fn watching_cannot_start_during_a_scan() {
    let mut state = ScanState::default();
    assert!(check_enable_notify(&state, 1).is_ok());
    state.active = Some(ScanProgress {
        scan_id: "scan_a".to_string(),
        library_ids: vec![1, 2],
        status: ScanStatus::Scanning,
        files_scanned: 0,
        files_total: 0,
        started_at: 0,
        error: None,
    });
    assert_eq!(check_enable_notify(&state, 2).unwrap_err().kind, ErrorKind::Conflict);
    assert!(check_enable_notify(&state, 3).is_ok());
    state.active.as_mut().unwrap().status = ScanStatus::Completed;
    assert!(check_enable_notify(&state, 2).is_ok());
}

#[test]
fn presented_rows() {
    let l = model_to_library_info(LibraryRow { id: 1, name: "n".to_string(), path: "/p".to_string(), is_enabled: 0, watch_enabled: 2, created_at: 3 });
    assert_eq!((l.is_enabled, l.watch_enabled), (false, true));
    assert_eq!(scan_status_to_str(&ScanStatus::Cancelled), "cancelled");
    let i = admin_user_info(user());
    assert_eq!((i.scrobbling_enabled, i.updated_at), (false, Some(2)));
    let u = model_to_user_info(user());
    assert_eq!(u.username, "bob");
    let r = login_response("tok".to_string(), user());
    assert_eq!((r.token.as_str(), r.user.max_bit_rate), ("tok", 128));
    assert_eq!(new_user_settings(None, None, None), (false, 0, "{}".to_string()));
}

#[test]
fn account_edits() {
    assert_eq!(require_user(None).unwrap_err().kind, ErrorKind::NotFound);
    let taken = user();
    assert_eq!(new_user(Some(&taken), "bob", "h", None, "{}", true, 0, 5).unwrap_err().kind, ErrorKind::Conflict);
    let n = new_user(None, "eve", "h", Some("e@x"), "{}", true, 64, 5).unwrap();
    assert_eq!((n.scrobbling_enabled, n.is_enabled, n.max_bit_rate, n.updated_at), (1, 1, 64, 5));
    let p = update_profile(Some(user()), Some(None), Some(true), None, 9).unwrap();
    assert_eq!((p.email.clone(), p.scrobbling_enabled, p.max_bit_rate, p.updated_at), (None, 1, 128, 9));
    assert_eq!(update_profile(None, None, None, None, 9).unwrap_err().kind, ErrorKind::NotFound);
    assert_eq!(set_password(Some(user()), "new", 4).unwrap().password_hash, "new");
    assert_eq!(set_privs(Some(user()), "{\"x\":true}", 4).unwrap().privs, "{\"x\":true}");
    assert_eq!(set_enabled(Some(user()), false, 4).unwrap().is_enabled, 0);
}

#[test]
fn the_first_start_makes_an_admin() {
    let existing = user();
    assert!(seed_admin_user(Some(&existing), 1).unwrap().is_none());
    let admin = seed_admin_user(None, 10).unwrap().unwrap();
    assert_eq!(admin.username, "admin");
    assert!(verify_password("123456", &admin.password_hash).unwrap());
    assert_eq!(admin.privs, "{\"edit_user\":true,\"edit_library\":true,\"read_server\":true}");
    assert_eq!((admin.scrobbling_enabled, admin.is_enabled, admin.created_at), (1, 1, 10));
}
