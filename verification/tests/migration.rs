use moosic::schema::{migration_down, migration_up, SchemaStep};

fn created(steps: &[SchemaStep]) -> Vec<&'static str> {
    steps
        .iter()
        .filter_map(|s| match s {
            SchemaStep::CreateTable(t) => Some(t.name),
            _ => None,
        })
        .collect()
}

#[test]
fn up_creates_the_tables_in_dependency_order() {
    let up = migration_up();
    assert_eq!(
        created(&up),
        vec![
            "libraries", "user_libraries", "artists", "albums", "songs", "playlists",
            "playlist_songs", "stars", "ratings", "scrobbles", "bookmarks", "shares", "sessions",
            "password_resets", "scan_tasks", "lyrics", "cover_art",
        ]
    );
    let added: Vec<&str> = up
        .iter()
        .filter_map(|s| match s {
            SchemaStep::AddColumn("users", c) => Some(c.name),
            _ => None,
        })
        .collect();
    assert_eq!(
        added,
        vec!["password_hash", "email", "privs", "scrobbling_enabled", "max_bit_rate", "is_enabled", "updated_at"]
    );
    let indexes = up.iter().filter(|s| matches!(s, SchemaStep::CreateIndex(_))).count();
    assert_eq!(indexes, 25);
}

#[test]
fn down_drops_what_up_created_in_reverse() {
    let up = migration_up();
    let down = migration_down();
    let mut dropped = Vec::new();
    let mut columns = Vec::new();
    for s in &down {
        match s {
            SchemaStep::DropTable(t) => dropped.push(*t),
            SchemaStep::DropColumn("users", c) => columns.push(*c),
            _ => panic!("unexpected step"),
        }
    }
    let mut expected = created(&up);
    expected.reverse();
    assert_eq!(dropped, expected);
    assert_eq!(columns.len(), 7);
    assert_eq!(columns[0], "password_hash");
}

#[test]
fn songs_table_shape() {
    let up = migration_up();
    let songs = up
        .iter()
        .find_map(|s| match s {
            SchemaStep::CreateTable(t) if t.name == "songs" => Some(t),
            _ => None,
        })
        .unwrap();
    assert_eq!(songs.columns.len(), 16);
    assert!(songs.columns.iter().any(|c| c.name == "file_path" && c.unique && !c.nullable));
    let fks: Vec<(&str, &str)> = songs.foreign_keys.iter().map(|f| (f.column, f.to_table)).collect();
    assert_eq!(fks, vec![("artist_id", "artists"), ("album_id", "albums"), ("library_id", "libraries")]);
}
