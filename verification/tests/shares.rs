use moosic::entities::ShareRow;
use moosic::error::ErrorKind;
use moosic::services::share::{
    batch_deletable, delete_check, generate_share_token, new_share, share_to_item, share_url,
    update_share, validate_item_type, visit_share, ShareKind,
};

fn share(id: i32, owner: i32, expires_at: Option<i64>) -> ShareRow {
    ShareRow {
        id,
        owner_id: owner,
        item_type: "song".to_string(),
        item_id: 9,
        description: Some("d".to_string()),
        token: "tok".to_string(),
        visit_count: 2,
        last_visited_at: None,
        expires_at,
        created_at: 100,
    }
}

#[test]
fn item_types_are_checked() {
    assert!(matches!(validate_item_type("song"), Ok(ShareKind::Song)));
    assert!(matches!(validate_item_type("album"), Ok(ShareKind::Album)));
    assert!(matches!(validate_item_type("playlist"), Ok(ShareKind::Playlist)));
    let e = validate_item_type("artist").unwrap_err();
    assert_eq!(e.kind, ErrorKind::ValidationError);
    assert_eq!(e.message, "Invalid item type 'artist'. Must be one of: song, album, playlist");
}

#[test]
fn tokens_and_urls() {
    let t = generate_share_token();
    assert_eq!(t.len(), 32);
    assert!(t.chars().all(|c| c.is_ascii_alphanumeric()));
    assert_eq!(share_url("abc"), "/api/share/abc");
}

#[test]
fn new_share_expires_after_the_given_days() {
    let s = new_share(1, "album", 5, Some("hi"), "tok".to_string(), Some(2), 1_000);
    assert_eq!(s.expires_at, Some(1_000 + 2 * 86_400_000));
    assert_eq!(s.visit_count, 0);
    assert_eq!(s.description.as_deref(), Some("hi"));
    let t = new_share(1, "album", 5, None, "tok".to_string(), None, 1_000);
    assert_eq!(t.expires_at, None);
}

#[test]
fn visiting_counts_and_refuses_expired_shares() {
    assert_eq!(visit_share(None, 0).unwrap_err().kind, ErrorKind::NotFound);
    assert_eq!(visit_share(Some(share(1, 1, Some(50))), 51).unwrap_err().kind, ErrorKind::Gone);
    let v = visit_share(Some(share(1, 1, Some(50))), 50).unwrap();
    assert_eq!(v.visit_count, 3);
    assert_eq!(v.last_visited_at, Some(50));
    let w = visit_share(Some(share(1, 1, None)), 1_000_000).unwrap();
    assert_eq!(w.visit_count, 3);
}

#[test]
fn updates_need_the_owner() {
    assert_eq!(update_share(None, 1, None, None, 0).unwrap_err().kind, ErrorKind::NotFound);
    assert_eq!(
        update_share(Some(share(1, 2, None)), 1, None, None, 0).unwrap_err().kind,
        ErrorKind::Forbidden
    );
    let u = update_share(Some(share(1, 1, None)), 1, Some(None), Some(1), 10).unwrap();
    assert_eq!(u.description, None);
    assert_eq!(u.expires_at, Some(10 + 86_400_000));
    let k = update_share(Some(share(1, 1, Some(7))), 1, None, None, 10).unwrap();
    assert_eq!(k.description.as_deref(), Some("d"));
    assert_eq!(k.expires_at, Some(7));
}

#[test]
fn deletion_needs_owner_or_admin() {
    assert_eq!(delete_check(None, 1, true).unwrap_err().kind, ErrorKind::NotFound);
    assert_eq!(delete_check(Some(share(4, 2, None)), 1, false).unwrap_err().kind, ErrorKind::Forbidden);
    assert_eq!(delete_check(Some(share(4, 2, None)), 1, true).unwrap(), 4);
    assert_eq!(delete_check(Some(share(4, 1, None)), 1, false).unwrap(), 4);
    let batch = vec![share(1, 1, None), share(2, 2, None), share(3, 1, None)];
    assert_eq!(batch_deletable(&batch, 1, false), vec![1, 3]);
    assert_eq!(batch_deletable(&batch, 1, true), vec![1, 2, 3]);
}

#[test]
fn presented_share_has_its_url() {
    let i = share_to_item(&share(1, 1, None), "Title".to_string());
    assert_eq!(i.url, "/api/share/tok");
    assert_eq!(i.kind, "song");
    assert_eq!(i.title, "Title");
}
