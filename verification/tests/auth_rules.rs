use moosic::entities::{SessionRow, UserRow};
use moosic::error::ErrorKind;
use moosic::middleware::auth::{
    authorize, bearer_token, extract_bearer_token, has_privilege, is_public_path, AuthUser,
};
use moosic::services::auth::{
    authenticate, change_password, draw_alphanumeric, generate_session_id, generate_token, hash_password,
    token_from_indices, new_session, refresh_check,
    revoke_check, verify_password,
};

fn user(hash: &str, enabled: i32) -> UserRow {
    UserRow {
        id: 7,
        username: "ann".to_string(),
        password_hash: hash.to_string(),
        email: None,
        privs: "{\"edit_user\":true,\"edit_library\":false}".to_string(),
        scrobbling_enabled: 1,
        max_bit_rate: 320,
        is_enabled: enabled,
        created_at: 1,
        updated_at: 2,
    }
}

fn session(user_id: i32, expires_at: i64) -> SessionRow {
    SessionRow {
        id: "sess_x".to_string(),
        user_id,
        token: "tok".to_string(),
        device_info: None,
        created_at: 0,
        last_used_at: 0,
        expires_at,
    }
}

#[test]
fn hash_then_verify_accepts_only_the_password() {
    let h = hash_password("secret").unwrap();
    assert_eq!(verify_password("secret", &h).unwrap(), true);
    assert_eq!(verify_password("Secret", &h).unwrap(), false);
}

#[test]
fn verify_rejects_a_malformed_hash() {
    let e = verify_password("x", "not a hash").unwrap_err();
    assert_eq!(e.kind, ErrorKind::Internal);
}

#[test]
fn authenticate_outcomes() {
    let h = hash_password("pw").unwrap();
    assert_eq!(authenticate(None, "pw").unwrap_err().kind, ErrorKind::Unauthorized);
    assert_eq!(authenticate(Some(user(&h, 0)), "pw").unwrap_err().kind, ErrorKind::Unauthorized);
    assert_eq!(authenticate(Some(user(&h, 1)), "nope").unwrap_err().kind, ErrorKind::Unauthorized);
    assert_eq!(authenticate(Some(user(&h, 1)), "pw").unwrap().id, 7);
}

#[test]
fn tokens_are_alphanumeric() {
    let t = generate_token();
    assert_eq!(t.len(), 32);
    assert!(t.chars().all(|c| c.is_ascii_alphanumeric()));
    let s = generate_session_id();
    assert!(s.starts_with("sess_"));
    assert_eq!(s.len(), 37);
    assert_ne!(generate_token(), generate_token());
}

#[test]
fn public_paths() {
    assert!(is_public_path("/"));
    assert!(is_public_path("/api/health"));
    assert!(is_public_path("/api/share/abc"));
    assert!(!is_public_path("/api/share/"));
    assert!(!is_public_path("/api/share/list"));
    assert!(!is_public_path("/api/share/create"));
    assert!(!is_public_path("/api/share/update"));
    assert!(!is_public_path("/api/share/delete"));
    assert!(!is_public_path("/api/share/delete/batch"));
    assert!(!is_public_path("/api/share/abc/def"));
    assert!(is_public_path("/api/user/login"));
    assert!(!is_public_path("/api/user"));
    assert!(!is_public_path("/api/music/list"));
}

#[test]
fn bearer_header_forms() {
    assert_eq!(bearer_token("Bearer abc"), Some("abc".to_string()));
    assert_eq!(bearer_token("Basic abc"), None);
    assert_eq!(extract_bearer_token(Some("Bearer t")).unwrap(), "t");
    assert_eq!(extract_bearer_token(None).unwrap_err().kind, ErrorKind::Unauthorized);
    assert_eq!(extract_bearer_token(Some("bearer t")).unwrap_err().kind, ErrorKind::Unauthorized);
}

#[test]
fn privileges_read_from_json() {
    let u = user("h", 1);
    let a = AuthUser {
        id: u.id,
        username: u.username.clone(),
        privs: u.privs.clone(),
        scrobbling_enabled: true,
        max_bit_rate: 0,
    };
    assert!(has_privilege(&a, "edit_user"));
    assert!(!has_privilege(&a, "edit_library"));
    assert!(!has_privilege(&a, "read_server"));
}

#[test]
fn authorize_checks_session_and_user() {
    assert_eq!(authorize(None, None, 5).unwrap_err().kind, ErrorKind::Unauthorized);
    assert_eq!(
        authorize(Some(session(7, 4)), Some(user("h", 1)), 5).unwrap_err().kind,
        ErrorKind::Unauthorized
    );
    assert_eq!(
        authorize(Some(session(7, 100)), Some(user("h", 0)), 5).unwrap_err().kind,
        ErrorKind::Unauthorized
    );
    let (a, touched) = authorize(Some(session(7, 100)), Some(user("h", 1)), 5).unwrap();
    assert_eq!(a.id, 7);
    assert_eq!(touched.last_used_at, 5);
}

#[test]
fn sessions_last_thirty_days_and_refresh_checks_expiry() {
    let s = new_session(3, "sess_a".to_string(), "tok".to_string(), None, 1_000);
    assert_eq!(s.expires_at, 1_000 + 30 * 24 * 3_600 * 1_000);
    assert_eq!(refresh_check(None, 0).unwrap_err().kind, ErrorKind::Unauthorized);
    assert_eq!(refresh_check(Some(session(1, 10)), 11).unwrap_err().kind, ErrorKind::Unauthorized);
    assert!(refresh_check(Some(session(1, 10)), 9).is_ok());
}

#[test]
fn revoking_another_users_session_is_forbidden() {
    assert_eq!(revoke_check(None, 1).unwrap_err().kind, ErrorKind::NotFound);
    assert_eq!(revoke_check(Some(session(2, 0)), 1).unwrap_err().kind, ErrorKind::Forbidden);
    assert!(revoke_check(Some(session(1, 0)), 1).is_ok());
}

#[test]
fn tokens_are_spelled_from_their_indices() {
    assert_eq!(token_from_indices(&vec![0, 25, 26, 51, 52, 61]), "azAZ09");
    assert_eq!(token_from_indices(&vec![]), "");
    let d = draw_alphanumeric(40);
    assert_eq!(d.len(), 40);
    assert!(d.chars().all(|c| c.is_ascii_alphanumeric()));
}

#[test]
fn changing_a_password_needs_the_old_one() {
    let h = hash_password("old").unwrap();
    let u = user(&h, 1);
    let n = change_password(&u, "old", "new").unwrap();
    assert_eq!(verify_password("new", &n).unwrap(), true);
    assert_eq!(verify_password("old", &n).unwrap(), false);
    assert_eq!(change_password(&u, "wrong", "new").unwrap_err().kind, ErrorKind::Unauthorized);
    assert_eq!(change_password(&user("not a hash", 1), "old", "new").unwrap_err().kind, ErrorKind::Internal);
}
