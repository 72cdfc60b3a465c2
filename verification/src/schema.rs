//! The database schema that the second migration installs and removes, as
//! data: each step is a plain value, and the server turns the steps into
//! statements.

use vstd::prelude::*;

verus! {

/// The storage type of a column.
#[derive(Clone, Copy, Debug, PartialEq, Eq, Structural)]
pub enum ColumnType {
    Integer,
    BigInteger,
    Text,
}

/// Whether, and how, a column is the table's key.
#[derive(Clone, Copy, Debug, PartialEq, Eq, Structural)]
pub enum KeyKind {
    Plain,
    Primary,
    AutoIncrementPrimary,
}

/// A column default.
#[derive(Debug, Clone, Copy)]
pub enum DefaultValue {
    Int(i64),
    Text(&'static str),
}

/// A column.
#[derive(Debug, Clone, Copy)]
pub struct ColumnDef {
    pub name: &'static str,
    pub ty: ColumnType,
    pub nullable: bool,
    pub unique: bool,
    pub key: KeyKind,
    pub default: Option<DefaultValue>,
}

/// What happens to a row when the row it references is deleted.
#[derive(Clone, Copy, Debug, PartialEq, Eq, Structural)]
pub enum OnDelete {
    Cascade,
    SetNull,
}

/// A foreign key from a column of the table to a column of another.
#[derive(Debug, Clone, Copy)]
pub struct ForeignKeyDef {
    pub name: &'static str,
    pub column: &'static str,
    pub to_table: &'static str,
    pub to_column: &'static str,
    pub on_delete: OnDelete,
}

/// A table to create.
#[derive(Debug)]
pub struct TableDef {
    pub name: &'static str,
    pub columns: Vec<ColumnDef>,
    /// The columns of a composite primary key (none when a column is the key).
    pub primary_key: Vec<&'static str>,
    pub foreign_keys: Vec<ForeignKeyDef>,
}

/// An index to create.
#[derive(Debug)]
pub struct IndexDef {
    pub name: &'static str,
    pub table: &'static str,
    pub columns: Vec<&'static str>,
    pub unique: bool,
}

/// One step of a migration.
#[derive(Debug)]
pub enum SchemaStep {
    AddColumn(&'static str, ColumnDef),
    CreateTable(TableDef),
    CreateIndex(IndexDef),
    DropTable(&'static str),
    DropColumn(&'static str, &'static str),
}

/// The model of a migration step.
pub enum StepView {
    AddColumn(&'static str, ColumnDef),
    CreateTable(&'static str, Seq<ColumnDef>, Seq<&'static str>, Seq<ForeignKeyDef>),
    CreateIndex(&'static str, &'static str, Seq<&'static str>, bool),
    DropTable(&'static str),
    DropColumn(&'static str, &'static str),
}

/// The model of a step.
pub open spec fn step_view(s: SchemaStep) -> StepView {
    match s {
        SchemaStep::AddColumn(t, c) => StepView::AddColumn(t, c),
        SchemaStep::CreateTable(t) => StepView::CreateTable(
            t.name,
            t.columns@,
            t.primary_key@,
            t.foreign_keys@,
        ),
        SchemaStep::CreateIndex(i) => StepView::CreateIndex(i.name, i.table, i.columns@, i.unique),
        SchemaStep::DropTable(t) => StepView::DropTable(t),
        SchemaStep::DropColumn(t, c) => StepView::DropColumn(t, c),
    }
}

/// The model of a migration.
pub open spec fn plan_view(steps: Seq<SchemaStep>) -> Seq<StepView> {
    steps.map_values(|s: SchemaStep| step_view(s))
}

// ---------------------------------------------------------------------------
// Column shapes
// ---------------------------------------------------------------------------

/// An auto-incremented integer primary key.
#[verifier::allow_in_spec]
pub fn pk_auto(name: &'static str) -> ColumnDef
    returns
        (ColumnDef {
            name,
            ty: ColumnType::Integer,
            nullable: false,
            unique: false,
            key: KeyKind::AutoIncrementPrimary,
            default: None,
        }),
{
    ColumnDef {
        name,
        ty: ColumnType::Integer,
        nullable: false,
        unique: false,
        key: KeyKind::AutoIncrementPrimary,
        default: None,
    }
}

/// A plain column of a type.
#[verifier::allow_in_spec]
pub fn column(name: &'static str, ty: ColumnType, nullable: bool) -> ColumnDef
    returns
        (ColumnDef { name, ty, nullable, unique: false, key: KeyKind::Plain, default: None }),
{
    ColumnDef { name, ty, nullable, unique: false, key: KeyKind::Plain, default: None }
}

/// A required integer column.
#[verifier::allow_in_spec]
pub fn integer(name: &'static str) -> ColumnDef
    returns
        column(name, ColumnType::Integer, false),
{
    column(name, ColumnType::Integer, false)
}

/// An optional integer column.
#[verifier::allow_in_spec]
pub fn integer_null(name: &'static str) -> ColumnDef
    returns
        column(name, ColumnType::Integer, true),
{
    column(name, ColumnType::Integer, true)
}

/// A required 64-bit integer column.
#[verifier::allow_in_spec]
pub fn big_integer(name: &'static str) -> ColumnDef
    returns
        column(name, ColumnType::BigInteger, false),
{
    column(name, ColumnType::BigInteger, false)
}

/// An optional 64-bit integer column.
#[verifier::allow_in_spec]
pub fn big_integer_null(name: &'static str) -> ColumnDef
    returns
        column(name, ColumnType::BigInteger, true),
{
    column(name, ColumnType::BigInteger, true)
}

/// A required text column.
#[verifier::allow_in_spec]
pub fn string(name: &'static str) -> ColumnDef
    returns
        column(name, ColumnType::Text, false),
{
    column(name, ColumnType::Text, false)
}

/// An optional text column.
#[verifier::allow_in_spec]
pub fn string_null(name: &'static str) -> ColumnDef
    returns
        column(name, ColumnType::Text, true),
{
    column(name, ColumnType::Text, true)
}

/// A column made the table's (non-incremented) primary key.
#[verifier::allow_in_spec]
pub fn primary(c: ColumnDef) -> ColumnDef
    returns
        (ColumnDef { key: KeyKind::Primary, ..c }),
{
    ColumnDef { key: KeyKind::Primary, ..c }
}

/// A column whose values must be distinct.
#[verifier::allow_in_spec]
pub fn unique(c: ColumnDef) -> ColumnDef
    returns
        (ColumnDef { unique: true, ..c }),
{
    ColumnDef { unique: true, ..c }
}

/// A column with an integer default.
#[verifier::allow_in_spec]
pub fn default_int(c: ColumnDef, v: i64) -> ColumnDef
    returns
        (ColumnDef { default: Some(DefaultValue::Int(v)), ..c }),
{
    ColumnDef { default: Some(DefaultValue::Int(v)), ..c }
}

/// A column with a text default.
#[verifier::allow_in_spec]
pub fn default_text(c: ColumnDef, v: &'static str) -> ColumnDef
    returns
        (ColumnDef { default: Some(DefaultValue::Text(v)), ..c }),
{
    ColumnDef { default: Some(DefaultValue::Text(v)), ..c }
}

/// A foreign key.
#[verifier::allow_in_spec]
pub fn fk(
    name: &'static str,
    column: &'static str,
    to_table: &'static str,
    to_column: &'static str,
    on_delete: OnDelete,
) -> ForeignKeyDef
    returns
        (ForeignKeyDef { name, column, to_table, to_column, on_delete }),
{
    ForeignKeyDef { name, column, to_table, to_column, on_delete }
}

// ---------------------------------------------------------------------------
// Building a plan
// ---------------------------------------------------------------------------

fn push_step(steps: &mut Vec<SchemaStep>, s: SchemaStep)
    ensures
        plan_view(final(steps)@) == plan_view(old(steps)@).push(step_view(s)),
{
    let ghost v = step_view(s);
    steps.push(s);
    assert(plan_view(steps@) =~= plan_view(old(steps)@).push(v));
}

fn create_table(
    steps: &mut Vec<SchemaStep>,
    name: &'static str,
    columns: Vec<ColumnDef>,
    primary_key: Vec<&'static str>,
    foreign_keys: Vec<ForeignKeyDef>,
)
    ensures
        plan_view(final(steps)@) == plan_view(old(steps)@).push(
            StepView::CreateTable(name, columns@, primary_key@, foreign_keys@),
        ),
{
    push_step(steps, SchemaStep::CreateTable(TableDef { name, columns, primary_key, foreign_keys }));
}

fn create_index(
    steps: &mut Vec<SchemaStep>,
    name: &'static str,
    table: &'static str,
    columns: Vec<&'static str>,
    unique: bool,
)
    ensures
        plan_view(final(steps)@) == plan_view(old(steps)@).push(
            StepView::CreateIndex(name, table, columns@, unique),
        ),
{
    push_step(steps, SchemaStep::CreateIndex(IndexDef { name, table, columns, unique }));
}

// ---------------------------------------------------------------------------
// The migration
// ---------------------------------------------------------------------------

/// The columns added to the users table, in order.
pub open spec fn user_columns_added() -> Seq<StepView> {
    seq![
        StepView::AddColumn("users", default_text(string("password_hash"), "")),
        StepView::AddColumn("users", string_null("email")),
        StepView::AddColumn("users", default_text(string("privs"), "{}")),
        StepView::AddColumn("users", default_int(integer("scrobbling_enabled"), 1)),
        StepView::AddColumn("users", default_int(integer("max_bit_rate"), 0)),
        StepView::AddColumn("users", default_int(integer("is_enabled"), 1)),
        StepView::AddColumn("users", default_int(big_integer("updated_at"), 0)),
    ]
}

fn add_user_columns(steps: &mut Vec<SchemaStep>)
    ensures
        plan_view(final(steps)@) == plan_view(old(steps)@) + user_columns_added(),
{
    let ghost start = plan_view(steps@);
    push_step(steps, SchemaStep::AddColumn("users", default_text(string("password_hash"), "")));
    push_step(steps, SchemaStep::AddColumn("users", string_null("email")));
    push_step(steps, SchemaStep::AddColumn("users", default_text(string("privs"), "{}")));
    push_step(steps, SchemaStep::AddColumn("users", default_int(integer("scrobbling_enabled"), 1)));
    push_step(steps, SchemaStep::AddColumn("users", default_int(integer("max_bit_rate"), 0)));
    push_step(steps, SchemaStep::AddColumn("users", default_int(integer("is_enabled"), 1)));
    push_step(steps, SchemaStep::AddColumn("users", default_int(big_integer("updated_at"), 0)));
    assert(plan_view(steps@) =~= start + user_columns_added());
}

/// The libraries table and its indexes.
pub open spec fn libraries_steps() -> Seq<StepView> {
    seq![
        StepView::CreateTable(
            "libraries",
            seq![
                pk_auto("id"),
                string("name"),
                unique(string("path")),
                default_int(integer("is_enabled"), 1),
                default_int(integer("watch_enabled"), 0),
                big_integer("created_at"),
            ],
            seq![],
            seq![],
        ),
    ]
}

fn add_libraries(steps: &mut Vec<SchemaStep>)
    ensures
        plan_view(final(steps)@) == plan_view(old(steps)@) + libraries_steps(),
{
    let ghost start = plan_view(steps@);
    let columns = vec![
        pk_auto("id"),
        string("name"),
        unique(string("path")),
        default_int(integer("is_enabled"), 1),
        default_int(integer("watch_enabled"), 0),
        big_integer("created_at"),
    ];
    assert(columns@ == seq![
        pk_auto("id"),
        string("name"),
        unique(string("path")),
        default_int(integer("is_enabled"), 1),
        default_int(integer("watch_enabled"), 0),
        big_integer("created_at"),
    ]);
    let primary_key: Vec<&'static str> = vec![];
    assert(primary_key@ == Seq::<&'static str>::empty());
    let foreign_keys: Vec<ForeignKeyDef> = vec![];
    assert(foreign_keys@ == Seq::<ForeignKeyDef>::empty());
    create_table(&mut *steps, "libraries", columns, primary_key, foreign_keys);
    assert(plan_view(steps@) =~= start + libraries_steps());
}

/// The user libraries table and its indexes.
pub open spec fn user_libraries_steps() -> Seq<StepView> {
    seq![
        StepView::CreateTable(
            "user_libraries",
            seq![
                integer("user_id"),
                integer("library_id"),
                default_int(integer("is_enabled"), 1),
            ],
            seq!["user_id", "library_id"],
            seq![
                fk("fk_user_libraries_user", "user_id", "users", "id", OnDelete::Cascade),
                fk("fk_user_libraries_library", "library_id", "libraries", "id", OnDelete::Cascade),
            ],
        ),
    ]
}

fn add_user_libraries(steps: &mut Vec<SchemaStep>)
    ensures
        plan_view(final(steps)@) == plan_view(old(steps)@) + user_libraries_steps(),
{
    let ghost start = plan_view(steps@);
    let columns = vec![
        integer("user_id"),
        integer("library_id"),
        default_int(integer("is_enabled"), 1),
    ];
    assert(columns@ == seq![
        integer("user_id"),
        integer("library_id"),
        default_int(integer("is_enabled"), 1),
    ]);
    let primary_key: Vec<&'static str> = vec!["user_id", "library_id"];
    assert(primary_key@ == seq!["user_id", "library_id"]);
    let foreign_keys = vec![
        fk("fk_user_libraries_user", "user_id", "users", "id", OnDelete::Cascade),
        fk("fk_user_libraries_library", "library_id", "libraries", "id", OnDelete::Cascade),
    ];
    assert(foreign_keys@ == seq![
        fk("fk_user_libraries_user", "user_id", "users", "id", OnDelete::Cascade),
        fk("fk_user_libraries_library", "library_id", "libraries", "id", OnDelete::Cascade),
    ]);
    create_table(&mut *steps, "user_libraries", columns, primary_key, foreign_keys);
    assert(plan_view(steps@) =~= start + user_libraries_steps());
}

/// The artists table and its indexes.
pub open spec fn artists_steps() -> Seq<StepView> {
    seq![
        StepView::CreateTable(
            "artists",
            seq![
                pk_auto("id"),
                string("name"),
                string_null("sort_name"),
                integer("library_id"),
                big_integer("created_at"),
            ],
            seq![],
            seq![
                fk("fk_artists_library", "library_id", "libraries", "id", OnDelete::Cascade),
            ],
        ),
        StepView::CreateIndex(
            "idx_artists_name",
            "artists",
            seq!["name"],
            false,
        ),
        StepView::CreateIndex(
            "idx_artists_sort_name",
            "artists",
            seq!["sort_name"],
            false,
        ),
        StepView::CreateIndex(
            "idx_artists_library_id",
            "artists",
            seq!["library_id"],
            false,
        ),
    ]
}

fn add_artists(steps: &mut Vec<SchemaStep>)
    ensures
        plan_view(final(steps)@) == plan_view(old(steps)@) + artists_steps(),
{
    let ghost start = plan_view(steps@);
    let columns = vec![
        pk_auto("id"),
        string("name"),
        string_null("sort_name"),
        integer("library_id"),
        big_integer("created_at"),
    ];
    assert(columns@ == seq![
        pk_auto("id"),
        string("name"),
        string_null("sort_name"),
        integer("library_id"),
        big_integer("created_at"),
    ]);
    let primary_key: Vec<&'static str> = vec![];
    assert(primary_key@ == Seq::<&'static str>::empty());
    let foreign_keys = vec![
        fk("fk_artists_library", "library_id", "libraries", "id", OnDelete::Cascade),
    ];
    assert(foreign_keys@ == seq![
        fk("fk_artists_library", "library_id", "libraries", "id", OnDelete::Cascade),
    ]);
    create_table(&mut *steps, "artists", columns, primary_key, foreign_keys);
    let index_columns: Vec<&'static str> = vec!["name"];
    assert(index_columns@ == seq!["name"]);
    create_index(&mut *steps, "idx_artists_name", "artists", index_columns, false);
    let index_columns: Vec<&'static str> = vec!["sort_name"];
    assert(index_columns@ == seq!["sort_name"]);
    create_index(&mut *steps, "idx_artists_sort_name", "artists", index_columns, false);
    let index_columns: Vec<&'static str> = vec!["library_id"];
    assert(index_columns@ == seq!["library_id"]);
    create_index(&mut *steps, "idx_artists_library_id", "artists", index_columns, false);
    assert(plan_view(steps@) =~= start + artists_steps());
}

/// The albums table and its indexes.
pub open spec fn albums_steps() -> Seq<StepView> {
    seq![
        StepView::CreateTable(
            "albums",
            seq![
                pk_auto("id"),
                string("name"),
                integer("artist_id"),
                integer_null("year"),
                integer("library_id"),
                big_integer("created_at"),
            ],
            seq![],
            seq![
                fk("fk_albums_artist", "artist_id", "artists", "id", OnDelete::Cascade),
                fk("fk_albums_library", "library_id", "libraries", "id", OnDelete::Cascade),
            ],
        ),
        StepView::CreateIndex(
            "idx_albums_name",
            "albums",
            seq!["name"],
            false,
        ),
        StepView::CreateIndex(
            "idx_albums_artist_id",
            "albums",
            seq!["artist_id"],
            false,
        ),
        StepView::CreateIndex(
            "idx_albums_year",
            "albums",
            seq!["year"],
            false,
        ),
        StepView::CreateIndex(
            "idx_albums_library_id",
            "albums",
            seq!["library_id"],
            false,
        ),
    ]
}

fn add_albums(steps: &mut Vec<SchemaStep>)
    ensures
        plan_view(final(steps)@) == plan_view(old(steps)@) + albums_steps(),
{
    let ghost start = plan_view(steps@);
    let columns = vec![
        pk_auto("id"),
        string("name"),
        integer("artist_id"),
        integer_null("year"),
        integer("library_id"),
        big_integer("created_at"),
    ];
    assert(columns@ == seq![
        pk_auto("id"),
        string("name"),
        integer("artist_id"),
        integer_null("year"),
        integer("library_id"),
        big_integer("created_at"),
    ]);
    let primary_key: Vec<&'static str> = vec![];
    assert(primary_key@ == Seq::<&'static str>::empty());
    let foreign_keys = vec![
        fk("fk_albums_artist", "artist_id", "artists", "id", OnDelete::Cascade),
        fk("fk_albums_library", "library_id", "libraries", "id", OnDelete::Cascade),
    ];
    assert(foreign_keys@ == seq![
        fk("fk_albums_artist", "artist_id", "artists", "id", OnDelete::Cascade),
        fk("fk_albums_library", "library_id", "libraries", "id", OnDelete::Cascade),
    ]);
    create_table(&mut *steps, "albums", columns, primary_key, foreign_keys);
    let index_columns: Vec<&'static str> = vec!["name"];
    assert(index_columns@ == seq!["name"]);
    create_index(&mut *steps, "idx_albums_name", "albums", index_columns, false);
    let index_columns: Vec<&'static str> = vec!["artist_id"];
    assert(index_columns@ == seq!["artist_id"]);
    create_index(&mut *steps, "idx_albums_artist_id", "albums", index_columns, false);
    let index_columns: Vec<&'static str> = vec!["year"];
    assert(index_columns@ == seq!["year"]);
    create_index(&mut *steps, "idx_albums_year", "albums", index_columns, false);
    let index_columns: Vec<&'static str> = vec!["library_id"];
    assert(index_columns@ == seq!["library_id"]);
    create_index(&mut *steps, "idx_albums_library_id", "albums", index_columns, false);
    assert(plan_view(steps@) =~= start + albums_steps());
}

/// The songs table and its indexes.
pub open spec fn songs_steps() -> Seq<StepView> {
    seq![
        StepView::CreateTable(
            "songs",
            seq![
                pk_auto("id"),
                string("title"),
                integer("artist_id"),
                integer_null("album_id"),
                integer_null("track_number"),
                integer_null("disc_number"),
                integer("duration_secs"),
                integer_null("bit_rate"),
                big_integer_null("size_bytes"),
                string_null("file_format"),
                string_null("content_type"),
                integer_null("year"),
                unique(string("file_path")),
                default_int(integer("has_cover_art"), 0),
                integer("library_id"),
                big_integer("created_at"),
            ],
            seq![],
            seq![
                fk("fk_songs_artist", "artist_id", "artists", "id", OnDelete::Cascade),
                fk("fk_songs_album", "album_id", "albums", "id", OnDelete::SetNull),
                fk("fk_songs_library", "library_id", "libraries", "id", OnDelete::Cascade),
            ],
        ),
        StepView::CreateIndex(
            "idx_songs_title",
            "songs",
            seq!["title"],
            false,
        ),
        StepView::CreateIndex(
            "idx_songs_artist_id",
            "songs",
            seq!["artist_id"],
            false,
        ),
        StepView::CreateIndex(
            "idx_songs_album_id",
            "songs",
            seq!["album_id"],
            false,
        ),
        StepView::CreateIndex(
            "idx_songs_year",
            "songs",
            seq!["year"],
            false,
        ),
        StepView::CreateIndex(
            "idx_songs_library_id",
            "songs",
            seq!["library_id"],
            false,
        ),
        StepView::CreateIndex(
            "idx_songs_created_at",
            "songs",
            seq!["created_at"],
            false,
        ),
    ]
}

fn add_songs(steps: &mut Vec<SchemaStep>)
    ensures
        plan_view(final(steps)@) == plan_view(old(steps)@) + songs_steps(),
{
    let ghost start = plan_view(steps@);
    let columns = vec![
        pk_auto("id"),
        string("title"),
        integer("artist_id"),
        integer_null("album_id"),
        integer_null("track_number"),
        integer_null("disc_number"),
        integer("duration_secs"),
        integer_null("bit_rate"),
        big_integer_null("size_bytes"),
        string_null("file_format"),
        string_null("content_type"),
        integer_null("year"),
        unique(string("file_path")),
        default_int(integer("has_cover_art"), 0),
        integer("library_id"),
        big_integer("created_at"),
    ];
    assert(columns@ == seq![
        pk_auto("id"),
        string("title"),
        integer("artist_id"),
        integer_null("album_id"),
        integer_null("track_number"),
        integer_null("disc_number"),
        integer("duration_secs"),
        integer_null("bit_rate"),
        big_integer_null("size_bytes"),
        string_null("file_format"),
        string_null("content_type"),
        integer_null("year"),
        unique(string("file_path")),
        default_int(integer("has_cover_art"), 0),
        integer("library_id"),
        big_integer("created_at"),
    ]);
    let primary_key: Vec<&'static str> = vec![];
    assert(primary_key@ == Seq::<&'static str>::empty());
    let foreign_keys = vec![
        fk("fk_songs_artist", "artist_id", "artists", "id", OnDelete::Cascade),
        fk("fk_songs_album", "album_id", "albums", "id", OnDelete::SetNull),
        fk("fk_songs_library", "library_id", "libraries", "id", OnDelete::Cascade),
    ];
    assert(foreign_keys@ == seq![
        fk("fk_songs_artist", "artist_id", "artists", "id", OnDelete::Cascade),
        fk("fk_songs_album", "album_id", "albums", "id", OnDelete::SetNull),
        fk("fk_songs_library", "library_id", "libraries", "id", OnDelete::Cascade),
    ]);
    create_table(&mut *steps, "songs", columns, primary_key, foreign_keys);
    let index_columns: Vec<&'static str> = vec!["title"];
    assert(index_columns@ == seq!["title"]);
    create_index(&mut *steps, "idx_songs_title", "songs", index_columns, false);
    let index_columns: Vec<&'static str> = vec!["artist_id"];
    assert(index_columns@ == seq!["artist_id"]);
    create_index(&mut *steps, "idx_songs_artist_id", "songs", index_columns, false);
    let index_columns: Vec<&'static str> = vec!["album_id"];
    assert(index_columns@ == seq!["album_id"]);
    create_index(&mut *steps, "idx_songs_album_id", "songs", index_columns, false);
    let index_columns: Vec<&'static str> = vec!["year"];
    assert(index_columns@ == seq!["year"]);
    create_index(&mut *steps, "idx_songs_year", "songs", index_columns, false);
    let index_columns: Vec<&'static str> = vec!["library_id"];
    assert(index_columns@ == seq!["library_id"]);
    create_index(&mut *steps, "idx_songs_library_id", "songs", index_columns, false);
    let index_columns: Vec<&'static str> = vec!["created_at"];
    assert(index_columns@ == seq!["created_at"]);
    create_index(&mut *steps, "idx_songs_created_at", "songs", index_columns, false);
    assert(plan_view(steps@) =~= start + songs_steps());
}

/// The playlists table and its indexes.
pub open spec fn playlists_steps() -> Seq<StepView> {
    seq![
        StepView::CreateTable(
            "playlists",
            seq![
                pk_auto("id"),
                string("name"),
                integer("owner_id"),
                string_null("comment"),
                default_int(integer("is_public"), 0),
                big_integer("created_at"),
                big_integer("updated_at"),
            ],
            seq![],
            seq![
                fk("fk_playlists_owner", "owner_id", "users", "id", OnDelete::Cascade),
            ],
        ),
        StepView::CreateIndex(
            "idx_playlists_owner_id",
            "playlists",
            seq!["owner_id"],
            false,
        ),
    ]
}

fn add_playlists(steps: &mut Vec<SchemaStep>)
    ensures
        plan_view(final(steps)@) == plan_view(old(steps)@) + playlists_steps(),
{
    let ghost start = plan_view(steps@);
    let columns = vec![
        pk_auto("id"),
        string("name"),
        integer("owner_id"),
        string_null("comment"),
        default_int(integer("is_public"), 0),
        big_integer("created_at"),
        big_integer("updated_at"),
    ];
    assert(columns@ == seq![
        pk_auto("id"),
        string("name"),
        integer("owner_id"),
        string_null("comment"),
        default_int(integer("is_public"), 0),
        big_integer("created_at"),
        big_integer("updated_at"),
    ]);
    let primary_key: Vec<&'static str> = vec![];
    assert(primary_key@ == Seq::<&'static str>::empty());
    let foreign_keys = vec![
        fk("fk_playlists_owner", "owner_id", "users", "id", OnDelete::Cascade),
    ];
    assert(foreign_keys@ == seq![
        fk("fk_playlists_owner", "owner_id", "users", "id", OnDelete::Cascade),
    ]);
    create_table(&mut *steps, "playlists", columns, primary_key, foreign_keys);
    let index_columns: Vec<&'static str> = vec!["owner_id"];
    assert(index_columns@ == seq!["owner_id"]);
    create_index(&mut *steps, "idx_playlists_owner_id", "playlists", index_columns, false);
    assert(plan_view(steps@) =~= start + playlists_steps());
}

/// The playlist songs table and its indexes.
pub open spec fn playlist_songs_steps() -> Seq<StepView> {
    seq![
        StepView::CreateTable(
            "playlist_songs",
            seq![
                integer("playlist_id"),
                integer("song_id"),
                integer("position"),
                big_integer("added_at"),
            ],
            seq!["playlist_id", "song_id"],
            seq![
                fk("fk_playlist_songs_playlist", "playlist_id", "playlists", "id", OnDelete::Cascade),
                fk("fk_playlist_songs_song", "song_id", "songs", "id", OnDelete::Cascade),
            ],
        ),
    ]
}

fn add_playlist_songs(steps: &mut Vec<SchemaStep>)
    ensures
        plan_view(final(steps)@) == plan_view(old(steps)@) + playlist_songs_steps(),
{
    let ghost start = plan_view(steps@);
    let columns = vec![
        integer("playlist_id"),
        integer("song_id"),
        integer("position"),
        big_integer("added_at"),
    ];
    assert(columns@ == seq![
        integer("playlist_id"),
        integer("song_id"),
        integer("position"),
        big_integer("added_at"),
    ]);
    let primary_key: Vec<&'static str> = vec!["playlist_id", "song_id"];
    assert(primary_key@ == seq!["playlist_id", "song_id"]);
    let foreign_keys = vec![
        fk("fk_playlist_songs_playlist", "playlist_id", "playlists", "id", OnDelete::Cascade),
        fk("fk_playlist_songs_song", "song_id", "songs", "id", OnDelete::Cascade),
    ];
    assert(foreign_keys@ == seq![
        fk("fk_playlist_songs_playlist", "playlist_id", "playlists", "id", OnDelete::Cascade),
        fk("fk_playlist_songs_song", "song_id", "songs", "id", OnDelete::Cascade),
    ]);
    create_table(&mut *steps, "playlist_songs", columns, primary_key, foreign_keys);
    assert(plan_view(steps@) =~= start + playlist_songs_steps());
}

/// The stars table and its indexes.
pub open spec fn stars_steps() -> Seq<StepView> {
    seq![
        StepView::CreateTable(
            "stars",
            seq![
                integer("user_id"),
                string("item_type"),
                integer("item_id"),
                big_integer("starred_at"),
            ],
            seq!["user_id", "item_type", "item_id"],
            seq![
                fk("fk_stars_user", "user_id", "users", "id", OnDelete::Cascade),
            ],
        ),
        StepView::CreateIndex(
            "idx_stars_user_id",
            "stars",
            seq!["user_id"],
            false,
        ),
        StepView::CreateIndex(
            "idx_stars_item",
            "stars",
            seq!["item_type", "item_id"],
            false,
        ),
    ]
}

fn add_stars(steps: &mut Vec<SchemaStep>)
    ensures
        plan_view(final(steps)@) == plan_view(old(steps)@) + stars_steps(),
{
    let ghost start = plan_view(steps@);
    let columns = vec![
        integer("user_id"),
        string("item_type"),
        integer("item_id"),
        big_integer("starred_at"),
    ];
    assert(columns@ == seq![
        integer("user_id"),
        string("item_type"),
        integer("item_id"),
        big_integer("starred_at"),
    ]);
    let primary_key: Vec<&'static str> = vec!["user_id", "item_type", "item_id"];
    assert(primary_key@ == seq!["user_id", "item_type", "item_id"]);
    let foreign_keys = vec![
        fk("fk_stars_user", "user_id", "users", "id", OnDelete::Cascade),
    ];
    assert(foreign_keys@ == seq![
        fk("fk_stars_user", "user_id", "users", "id", OnDelete::Cascade),
    ]);
    create_table(&mut *steps, "stars", columns, primary_key, foreign_keys);
    let index_columns: Vec<&'static str> = vec!["user_id"];
    assert(index_columns@ == seq!["user_id"]);
    create_index(&mut *steps, "idx_stars_user_id", "stars", index_columns, false);
    let index_columns: Vec<&'static str> = vec!["item_type", "item_id"];
    assert(index_columns@ == seq!["item_type", "item_id"]);
    create_index(&mut *steps, "idx_stars_item", "stars", index_columns, false);
    assert(plan_view(steps@) =~= start + stars_steps());
}

/// The ratings table and its indexes.
pub open spec fn ratings_steps() -> Seq<StepView> {
    seq![
        StepView::CreateTable(
            "ratings",
            seq![
                integer("user_id"),
                string("item_type"),
                integer("item_id"),
                integer("rating"),
                big_integer("rated_at"),
            ],
            seq!["user_id", "item_type", "item_id"],
            seq![
                fk("fk_ratings_user", "user_id", "users", "id", OnDelete::Cascade),
            ],
        ),
    ]
}

fn add_ratings(steps: &mut Vec<SchemaStep>)
    ensures
        plan_view(final(steps)@) == plan_view(old(steps)@) + ratings_steps(),
{
    let ghost start = plan_view(steps@);
    let columns = vec![
        integer("user_id"),
        string("item_type"),
        integer("item_id"),
        integer("rating"),
        big_integer("rated_at"),
    ];
    assert(columns@ == seq![
        integer("user_id"),
        string("item_type"),
        integer("item_id"),
        integer("rating"),
        big_integer("rated_at"),
    ]);
    let primary_key: Vec<&'static str> = vec!["user_id", "item_type", "item_id"];
    assert(primary_key@ == seq!["user_id", "item_type", "item_id"]);
    let foreign_keys = vec![
        fk("fk_ratings_user", "user_id", "users", "id", OnDelete::Cascade),
    ];
    assert(foreign_keys@ == seq![
        fk("fk_ratings_user", "user_id", "users", "id", OnDelete::Cascade),
    ]);
    create_table(&mut *steps, "ratings", columns, primary_key, foreign_keys);
    assert(plan_view(steps@) =~= start + ratings_steps());
}

/// The scrobbles table and its indexes.
pub open spec fn scrobbles_steps() -> Seq<StepView> {
    seq![
        StepView::CreateTable(
            "scrobbles",
            seq![
                pk_auto("id"),
                integer("user_id"),
                integer("song_id"),
                default_int(integer("submission"), 1),
                big_integer("played_at"),
            ],
            seq![],
            seq![
                fk("fk_scrobbles_user", "user_id", "users", "id", OnDelete::Cascade),
                fk("fk_scrobbles_song", "song_id", "songs", "id", OnDelete::Cascade),
            ],
        ),
        StepView::CreateIndex(
            "idx_scrobbles_user_song_time",
            "scrobbles",
            seq!["user_id", "song_id", "played_at"],
            false,
        ),
        StepView::CreateIndex(
            "idx_scrobbles_user_played",
            "scrobbles",
            seq!["user_id", "played_at"],
            false,
        ),
        StepView::CreateIndex(
            "idx_scrobbles_song_id",
            "scrobbles",
            seq!["song_id"],
            false,
        ),
    ]
}

fn add_scrobbles(steps: &mut Vec<SchemaStep>)
    ensures
        plan_view(final(steps)@) == plan_view(old(steps)@) + scrobbles_steps(),
{
    let ghost start = plan_view(steps@);
    let columns = vec![
        pk_auto("id"),
        integer("user_id"),
        integer("song_id"),
        default_int(integer("submission"), 1),
        big_integer("played_at"),
    ];
    assert(columns@ == seq![
        pk_auto("id"),
        integer("user_id"),
        integer("song_id"),
        default_int(integer("submission"), 1),
        big_integer("played_at"),
    ]);
    let primary_key: Vec<&'static str> = vec![];
    assert(primary_key@ == Seq::<&'static str>::empty());
    let foreign_keys = vec![
        fk("fk_scrobbles_user", "user_id", "users", "id", OnDelete::Cascade),
        fk("fk_scrobbles_song", "song_id", "songs", "id", OnDelete::Cascade),
    ];
    assert(foreign_keys@ == seq![
        fk("fk_scrobbles_user", "user_id", "users", "id", OnDelete::Cascade),
        fk("fk_scrobbles_song", "song_id", "songs", "id", OnDelete::Cascade),
    ]);
    create_table(&mut *steps, "scrobbles", columns, primary_key, foreign_keys);
    let index_columns: Vec<&'static str> = vec!["user_id", "song_id", "played_at"];
    assert(index_columns@ == seq!["user_id", "song_id", "played_at"]);
    create_index(&mut *steps, "idx_scrobbles_user_song_time", "scrobbles", index_columns, false);
    let index_columns: Vec<&'static str> = vec!["user_id", "played_at"];
    assert(index_columns@ == seq!["user_id", "played_at"]);
    create_index(&mut *steps, "idx_scrobbles_user_played", "scrobbles", index_columns, false);
    let index_columns: Vec<&'static str> = vec!["song_id"];
    assert(index_columns@ == seq!["song_id"]);
    create_index(&mut *steps, "idx_scrobbles_song_id", "scrobbles", index_columns, false);
    assert(plan_view(steps@) =~= start + scrobbles_steps());
}

/// The bookmarks table and its indexes.
pub open spec fn bookmarks_steps() -> Seq<StepView> {
    seq![
        StepView::CreateTable(
            "bookmarks",
            seq![
                pk_auto("id"),
                integer("user_id"),
                integer("song_id"),
                integer("position_ms"),
                string_null("device_id"),
                big_integer("updated_at"),
            ],
            seq![],
            seq![
                fk("fk_bookmarks_user", "user_id", "users", "id", OnDelete::Cascade),
                fk("fk_bookmarks_song", "song_id", "songs", "id", OnDelete::Cascade),
            ],
        ),
    ]
}

fn add_bookmarks(steps: &mut Vec<SchemaStep>)
    ensures
        plan_view(final(steps)@) == plan_view(old(steps)@) + bookmarks_steps(),
{
    let ghost start = plan_view(steps@);
    let columns = vec![
        pk_auto("id"),
        integer("user_id"),
        integer("song_id"),
        integer("position_ms"),
        string_null("device_id"),
        big_integer("updated_at"),
    ];
    assert(columns@ == seq![
        pk_auto("id"),
        integer("user_id"),
        integer("song_id"),
        integer("position_ms"),
        string_null("device_id"),
        big_integer("updated_at"),
    ]);
    let primary_key: Vec<&'static str> = vec![];
    assert(primary_key@ == Seq::<&'static str>::empty());
    let foreign_keys = vec![
        fk("fk_bookmarks_user", "user_id", "users", "id", OnDelete::Cascade),
        fk("fk_bookmarks_song", "song_id", "songs", "id", OnDelete::Cascade),
    ];
    assert(foreign_keys@ == seq![
        fk("fk_bookmarks_user", "user_id", "users", "id", OnDelete::Cascade),
        fk("fk_bookmarks_song", "song_id", "songs", "id", OnDelete::Cascade),
    ]);
    create_table(&mut *steps, "bookmarks", columns, primary_key, foreign_keys);
    assert(plan_view(steps@) =~= start + bookmarks_steps());
}

/// The shares table and its indexes.
pub open spec fn shares_steps() -> Seq<StepView> {
    seq![
        StepView::CreateTable(
            "shares",
            seq![
                pk_auto("id"),
                integer("owner_id"),
                string("item_type"),
                integer("item_id"),
                string_null("description"),
                unique(string("token")),
                default_int(integer("visit_count"), 0),
                big_integer_null("last_visited_at"),
                big_integer_null("expires_at"),
                big_integer("created_at"),
            ],
            seq![],
            seq![
                fk("fk_shares_owner", "owner_id", "users", "id", OnDelete::Cascade),
            ],
        ),
        StepView::CreateIndex(
            "idx_shares_token",
            "shares",
            seq!["token"],
            true,
        ),
        StepView::CreateIndex(
            "idx_shares_owner_id",
            "shares",
            seq!["owner_id"],
            false,
        ),
    ]
}

fn add_shares(steps: &mut Vec<SchemaStep>)
    ensures
        plan_view(final(steps)@) == plan_view(old(steps)@) + shares_steps(),
{
    let ghost start = plan_view(steps@);
    let columns = vec![
        pk_auto("id"),
        integer("owner_id"),
        string("item_type"),
        integer("item_id"),
        string_null("description"),
        unique(string("token")),
        default_int(integer("visit_count"), 0),
        big_integer_null("last_visited_at"),
        big_integer_null("expires_at"),
        big_integer("created_at"),
    ];
    assert(columns@ == seq![
        pk_auto("id"),
        integer("owner_id"),
        string("item_type"),
        integer("item_id"),
        string_null("description"),
        unique(string("token")),
        default_int(integer("visit_count"), 0),
        big_integer_null("last_visited_at"),
        big_integer_null("expires_at"),
        big_integer("created_at"),
    ]);
    let primary_key: Vec<&'static str> = vec![];
    assert(primary_key@ == Seq::<&'static str>::empty());
    let foreign_keys = vec![
        fk("fk_shares_owner", "owner_id", "users", "id", OnDelete::Cascade),
    ];
    assert(foreign_keys@ == seq![
        fk("fk_shares_owner", "owner_id", "users", "id", OnDelete::Cascade),
    ]);
    create_table(&mut *steps, "shares", columns, primary_key, foreign_keys);
    let index_columns: Vec<&'static str> = vec!["token"];
    assert(index_columns@ == seq!["token"]);
    create_index(&mut *steps, "idx_shares_token", "shares", index_columns, true);
    let index_columns: Vec<&'static str> = vec!["owner_id"];
    assert(index_columns@ == seq!["owner_id"]);
    create_index(&mut *steps, "idx_shares_owner_id", "shares", index_columns, false);
    assert(plan_view(steps@) =~= start + shares_steps());
}

/// The sessions table and its indexes.
pub open spec fn sessions_steps() -> Seq<StepView> {
    seq![
        StepView::CreateTable(
            "sessions",
            seq![
                primary(string("id")),
                integer("user_id"),
                unique(string("token")),
                string_null("device_info"),
                big_integer("created_at"),
                big_integer("last_used_at"),
                big_integer("expires_at"),
            ],
            seq![],
            seq![
                fk("fk_sessions_user", "user_id", "users", "id", OnDelete::Cascade),
            ],
        ),
        StepView::CreateIndex(
            "idx_sessions_token",
            "sessions",
            seq!["token"],
            true,
        ),
        StepView::CreateIndex(
            "idx_sessions_user_id",
            "sessions",
            seq!["user_id"],
            false,
        ),
    ]
}

fn add_sessions(steps: &mut Vec<SchemaStep>)
    ensures
        plan_view(final(steps)@) == plan_view(old(steps)@) + sessions_steps(),
{
    let ghost start = plan_view(steps@);
    let columns = vec![
        primary(string("id")),
        integer("user_id"),
        unique(string("token")),
        string_null("device_info"),
        big_integer("created_at"),
        big_integer("last_used_at"),
        big_integer("expires_at"),
    ];
    assert(columns@ == seq![
        primary(string("id")),
        integer("user_id"),
        unique(string("token")),
        string_null("device_info"),
        big_integer("created_at"),
        big_integer("last_used_at"),
        big_integer("expires_at"),
    ]);
    let primary_key: Vec<&'static str> = vec![];
    assert(primary_key@ == Seq::<&'static str>::empty());
    let foreign_keys = vec![
        fk("fk_sessions_user", "user_id", "users", "id", OnDelete::Cascade),
    ];
    assert(foreign_keys@ == seq![
        fk("fk_sessions_user", "user_id", "users", "id", OnDelete::Cascade),
    ]);
    create_table(&mut *steps, "sessions", columns, primary_key, foreign_keys);
    let index_columns: Vec<&'static str> = vec!["token"];
    assert(index_columns@ == seq!["token"]);
    create_index(&mut *steps, "idx_sessions_token", "sessions", index_columns, true);
    let index_columns: Vec<&'static str> = vec!["user_id"];
    assert(index_columns@ == seq!["user_id"]);
    create_index(&mut *steps, "idx_sessions_user_id", "sessions", index_columns, false);
    assert(plan_view(steps@) =~= start + sessions_steps());
}

/// The password resets table and its indexes.
pub open spec fn password_resets_steps() -> Seq<StepView> {
    seq![
        StepView::CreateTable(
            "password_resets",
            seq![
                pk_auto("id"),
                string("email"),
                string("code"),
                big_integer("expires_at"),
                default_int(integer("used"), 0),
                big_integer("created_at"),
            ],
            seq![],
            seq![],
        ),
        StepView::CreateIndex(
            "idx_password_resets_email",
            "password_resets",
            seq!["email"],
            false,
        ),
    ]
}

fn add_password_resets(steps: &mut Vec<SchemaStep>)
    ensures
        plan_view(final(steps)@) == plan_view(old(steps)@) + password_resets_steps(),
{
    let ghost start = plan_view(steps@);
    let columns = vec![
        pk_auto("id"),
        string("email"),
        string("code"),
        big_integer("expires_at"),
        default_int(integer("used"), 0),
        big_integer("created_at"),
    ];
    assert(columns@ == seq![
        pk_auto("id"),
        string("email"),
        string("code"),
        big_integer("expires_at"),
        default_int(integer("used"), 0),
        big_integer("created_at"),
    ]);
    let primary_key: Vec<&'static str> = vec![];
    assert(primary_key@ == Seq::<&'static str>::empty());
    let foreign_keys: Vec<ForeignKeyDef> = vec![];
    assert(foreign_keys@ == Seq::<ForeignKeyDef>::empty());
    create_table(&mut *steps, "password_resets", columns, primary_key, foreign_keys);
    let index_columns: Vec<&'static str> = vec!["email"];
    assert(index_columns@ == seq!["email"]);
    create_index(&mut *steps, "idx_password_resets_email", "password_resets", index_columns, false);
    assert(plan_view(steps@) =~= start + password_resets_steps());
}

/// The scan tasks table and its indexes.
pub open spec fn scan_tasks_steps() -> Seq<StepView> {
    seq![
        StepView::CreateTable(
            "scan_tasks",
            seq![
                primary(string("id")),
                string("status"),
                default_int(integer("files_scanned"), 0),
                default_int(integer("files_total"), 0),
                big_integer("started_at"),
                big_integer_null("finished_at"),
                string_null("error"),
            ],
            seq![],
            seq![],
        ),
    ]
}

fn add_scan_tasks(steps: &mut Vec<SchemaStep>)
    ensures
        plan_view(final(steps)@) == plan_view(old(steps)@) + scan_tasks_steps(),
{
    let ghost start = plan_view(steps@);
    let columns = vec![
        primary(string("id")),
        string("status"),
        default_int(integer("files_scanned"), 0),
        default_int(integer("files_total"), 0),
        big_integer("started_at"),
        big_integer_null("finished_at"),
        string_null("error"),
    ];
    assert(columns@ == seq![
        primary(string("id")),
        string("status"),
        default_int(integer("files_scanned"), 0),
        default_int(integer("files_total"), 0),
        big_integer("started_at"),
        big_integer_null("finished_at"),
        string_null("error"),
    ]);
    let primary_key: Vec<&'static str> = vec![];
    assert(primary_key@ == Seq::<&'static str>::empty());
    let foreign_keys: Vec<ForeignKeyDef> = vec![];
    assert(foreign_keys@ == Seq::<ForeignKeyDef>::empty());
    create_table(&mut *steps, "scan_tasks", columns, primary_key, foreign_keys);
    assert(plan_view(steps@) =~= start + scan_tasks_steps());
}

/// The lyrics table and its indexes.
pub open spec fn lyrics_steps() -> Seq<StepView> {
    seq![
        StepView::CreateTable(
            "lyrics",
            seq![
                primary(integer("song_id")),
                string("type"),
                string("content"),
            ],
            seq![],
            seq![
                fk("fk_lyrics_song", "song_id", "songs", "id", OnDelete::Cascade),
            ],
        ),
    ]
}

fn add_lyrics(steps: &mut Vec<SchemaStep>)
    ensures
        plan_view(final(steps)@) == plan_view(old(steps)@) + lyrics_steps(),
{
    let ghost start = plan_view(steps@);
    let columns = vec![
        primary(integer("song_id")),
        string("type"),
        string("content"),
    ];
    assert(columns@ == seq![
        primary(integer("song_id")),
        string("type"),
        string("content"),
    ]);
    let primary_key: Vec<&'static str> = vec![];
    assert(primary_key@ == Seq::<&'static str>::empty());
    let foreign_keys = vec![
        fk("fk_lyrics_song", "song_id", "songs", "id", OnDelete::Cascade),
    ];
    assert(foreign_keys@ == seq![
        fk("fk_lyrics_song", "song_id", "songs", "id", OnDelete::Cascade),
    ]);
    create_table(&mut *steps, "lyrics", columns, primary_key, foreign_keys);
    assert(plan_view(steps@) =~= start + lyrics_steps());
}

/// The cover art table and its indexes.
pub open spec fn cover_art_steps() -> Seq<StepView> {
    seq![
        StepView::CreateTable(
            "cover_art",
            seq![
                pk_auto("id"),
                string("item_type"),
                integer("item_id"),
                string("mime_type"),
                integer_null("width"),
                integer_null("height"),
                string_null("file_path"),
            ],
            seq![],
            seq![],
        ),
        StepView::CreateIndex(
            "idx_cover_art_item",
            "cover_art",
            seq!["item_type", "item_id"],
            true,
        ),
    ]
}

fn add_cover_art(steps: &mut Vec<SchemaStep>)
    ensures
        plan_view(final(steps)@) == plan_view(old(steps)@) + cover_art_steps(),
{
    let ghost start = plan_view(steps@);
    let columns = vec![
        pk_auto("id"),
        string("item_type"),
        integer("item_id"),
        string("mime_type"),
        integer_null("width"),
        integer_null("height"),
        string_null("file_path"),
    ];
    assert(columns@ == seq![
        pk_auto("id"),
        string("item_type"),
        integer("item_id"),
        string("mime_type"),
        integer_null("width"),
        integer_null("height"),
        string_null("file_path"),
    ]);
    let primary_key: Vec<&'static str> = vec![];
    assert(primary_key@ == Seq::<&'static str>::empty());
    let foreign_keys: Vec<ForeignKeyDef> = vec![];
    assert(foreign_keys@ == Seq::<ForeignKeyDef>::empty());
    create_table(&mut *steps, "cover_art", columns, primary_key, foreign_keys);
    let index_columns: Vec<&'static str> = vec!["item_type", "item_id"];
    assert(index_columns@ == seq!["item_type", "item_id"]);
    create_index(&mut *steps, "idx_cover_art_item", "cover_art", index_columns, true);
    assert(plan_view(steps@) =~= start + cover_art_steps());
}

/// The steps of the migration, in order: the new user columns, then each
/// table followed by its indexes.
pub open spec fn up_plan() -> Seq<StepView> {
    user_columns_added()
        + libraries_steps()
        + user_libraries_steps()
        + artists_steps()
        + albums_steps()
        + songs_steps()
        + playlists_steps()
        + playlist_songs_steps()
        + stars_steps()
        + ratings_steps()
        + scrobbles_steps()
        + bookmarks_steps()
        + shares_steps()
        + sessions_steps()
        + password_resets_steps()
        + scan_tasks_steps()
        + lyrics_steps()
        + cover_art_steps()
}

/// The steps that install the schema.
pub fn migration_up() -> (steps: Vec<SchemaStep>)
    ensures
        plan_view(steps@) == up_plan(),
{
    let mut steps: Vec<SchemaStep> = Vec::new();
    assert(plan_view(steps@) =~= Seq::<StepView>::empty());
    add_user_columns(&mut steps);
    add_libraries(&mut steps);
    add_user_libraries(&mut steps);
    add_artists(&mut steps);
    add_albums(&mut steps);
    add_songs(&mut steps);
    add_playlists(&mut steps);
    add_playlist_songs(&mut steps);
    add_stars(&mut steps);
    add_ratings(&mut steps);
    add_scrobbles(&mut steps);
    add_bookmarks(&mut steps);
    add_shares(&mut steps);
    add_sessions(&mut steps);
    add_password_resets(&mut steps);
    add_scan_tasks(&mut steps);
    add_lyrics(&mut steps);
    add_cover_art(&mut steps);
    assert(plan_view(steps@) =~= up_plan());
    steps
}

/// The steps that remove the schema: the tables in the reverse order of
/// their creation, then the added user columns.
pub open spec fn down_plan() -> Seq<StepView> {
    seq![
        StepView::DropTable("cover_art"),
        StepView::DropTable("lyrics"),
        StepView::DropTable("scan_tasks"),
        StepView::DropTable("password_resets"),
        StepView::DropTable("sessions"),
        StepView::DropTable("shares"),
        StepView::DropTable("bookmarks"),
        StepView::DropTable("scrobbles"),
        StepView::DropTable("ratings"),
        StepView::DropTable("stars"),
        StepView::DropTable("playlist_songs"),
        StepView::DropTable("playlists"),
        StepView::DropTable("songs"),
        StepView::DropTable("albums"),
        StepView::DropTable("artists"),
        StepView::DropTable("user_libraries"),
        StepView::DropTable("libraries"),
        StepView::DropColumn("users", "password_hash"),
        StepView::DropColumn("users", "email"),
        StepView::DropColumn("users", "privs"),
        StepView::DropColumn("users", "scrobbling_enabled"),
        StepView::DropColumn("users", "max_bit_rate"),
        StepView::DropColumn("users", "is_enabled"),
        StepView::DropColumn("users", "updated_at"),
    ]
}

/// The steps that remove the schema.
pub fn migration_down() -> (steps: Vec<SchemaStep>)
    ensures
        plan_view(steps@) == down_plan(),
{
    let mut steps: Vec<SchemaStep> = Vec::new();
    assert(plan_view(steps@) =~= Seq::<StepView>::empty());
    push_step(&mut steps, SchemaStep::DropTable("cover_art"));
    push_step(&mut steps, SchemaStep::DropTable("lyrics"));
    push_step(&mut steps, SchemaStep::DropTable("scan_tasks"));
    push_step(&mut steps, SchemaStep::DropTable("password_resets"));
    push_step(&mut steps, SchemaStep::DropTable("sessions"));
    push_step(&mut steps, SchemaStep::DropTable("shares"));
    push_step(&mut steps, SchemaStep::DropTable("bookmarks"));
    push_step(&mut steps, SchemaStep::DropTable("scrobbles"));
    push_step(&mut steps, SchemaStep::DropTable("ratings"));
    push_step(&mut steps, SchemaStep::DropTable("stars"));
    push_step(&mut steps, SchemaStep::DropTable("playlist_songs"));
    push_step(&mut steps, SchemaStep::DropTable("playlists"));
    push_step(&mut steps, SchemaStep::DropTable("songs"));
    push_step(&mut steps, SchemaStep::DropTable("albums"));
    push_step(&mut steps, SchemaStep::DropTable("artists"));
    push_step(&mut steps, SchemaStep::DropTable("user_libraries"));
    push_step(&mut steps, SchemaStep::DropTable("libraries"));
    push_step(&mut steps, SchemaStep::DropColumn("users", "password_hash"));
    push_step(&mut steps, SchemaStep::DropColumn("users", "email"));
    push_step(&mut steps, SchemaStep::DropColumn("users", "privs"));
    push_step(&mut steps, SchemaStep::DropColumn("users", "scrobbling_enabled"));
    push_step(&mut steps, SchemaStep::DropColumn("users", "max_bit_rate"));
    push_step(&mut steps, SchemaStep::DropColumn("users", "is_enabled"));
    push_step(&mut steps, SchemaStep::DropColumn("users", "updated_at"));
    assert(plan_view(steps@) =~= down_plan());
    steps
}


// ---------------------------------------------------------------------------
// What the migration guarantees
// ---------------------------------------------------------------------------

/// The tables a plan creates, in order.
pub open spec fn created_tables(plan: Seq<StepView>) -> Seq<&'static str>
    decreases plan.len(),
{
    if plan.len() == 0 {
        Seq::empty()
    } else {
        created_tables(plan.drop_last()) + match plan.last() {
            StepView::CreateTable(n, _, _, _) => seq![n],
            _ => Seq::empty(),
        }
    }
}

/// The tables a plan drops, in order.
pub open spec fn dropped_tables(plan: Seq<StepView>) -> Seq<&'static str>
    decreases plan.len(),
{
    if plan.len() == 0 {
        Seq::empty()
    } else {
        dropped_tables(plan.drop_last()) + match plan.last() {
            StepView::DropTable(n) => seq![n],
            _ => Seq::empty(),
        }
    }
}

/// The columns (table, column) a plan adds to existing tables, in order.
pub open spec fn added_columns(plan: Seq<StepView>) -> Seq<(&'static str, &'static str)>
    decreases plan.len(),
{
    if plan.len() == 0 {
        Seq::empty()
    } else {
        added_columns(plan.drop_last()) + match plan.last() {
            StepView::AddColumn(t, c) => seq![(t, c.name)],
            _ => Seq::empty(),
        }
    }
}

/// The columns (table, column) a plan drops, in order.
pub open spec fn dropped_columns(plan: Seq<StepView>) -> Seq<(&'static str, &'static str)>
    decreases plan.len(),
{
    if plan.len() == 0 {
        Seq::empty()
    } else {
        dropped_columns(plan.drop_last()) + match plan.last() {
            StepView::DropColumn(t, c) => seq![(t, c)],
            _ => Seq::empty(),
        }
    }
}

proof fn lemma_collect_append(a: Seq<StepView>, b: Seq<StepView>)
    ensures
        created_tables(a + b) == created_tables(a) + created_tables(b),
        dropped_tables(a + b) == dropped_tables(a) + dropped_tables(b),
        added_columns(a + b) == added_columns(a) + added_columns(b),
        dropped_columns(a + b) == dropped_columns(a) + dropped_columns(b),
    decreases b.len(),
{
    if b.len() == 0 {
        assert(a + b =~= a);
    } else {
        lemma_collect_append(a, b.drop_last());
        assert((a + b).drop_last() =~= a + b.drop_last());
        assert((a + b).last() == b.last());
    }
}

proof fn lemma_libraries_collects()
    ensures
        created_tables(libraries_steps()) == seq!["libraries"],
        added_columns(libraries_steps()) == Seq::<(&'static str, &'static str)>::empty(),
{
    reveal_with_fuel(created_tables, 8);
    reveal_with_fuel(added_columns, 8);
    assert(created_tables(libraries_steps()) =~= seq!["libraries"]);
    assert(added_columns(libraries_steps()) =~= Seq::<(&'static str, &'static str)>::empty());
}

proof fn lemma_user_libraries_collects()
    ensures
        created_tables(user_libraries_steps()) == seq!["user_libraries"],
        added_columns(user_libraries_steps()) == Seq::<(&'static str, &'static str)>::empty(),
{
    reveal_with_fuel(created_tables, 8);
    reveal_with_fuel(added_columns, 8);
    assert(created_tables(user_libraries_steps()) =~= seq!["user_libraries"]);
    assert(added_columns(user_libraries_steps()) =~= Seq::<(&'static str, &'static str)>::empty());
}

proof fn lemma_artists_collects()
    ensures
        created_tables(artists_steps()) == seq!["artists"],
        added_columns(artists_steps()) == Seq::<(&'static str, &'static str)>::empty(),
{
    reveal_with_fuel(created_tables, 8);
    reveal_with_fuel(added_columns, 8);
    assert(created_tables(artists_steps()) =~= seq!["artists"]);
    assert(added_columns(artists_steps()) =~= Seq::<(&'static str, &'static str)>::empty());
}

proof fn lemma_albums_collects()
    ensures
        created_tables(albums_steps()) == seq!["albums"],
        added_columns(albums_steps()) == Seq::<(&'static str, &'static str)>::empty(),
{
    reveal_with_fuel(created_tables, 8);
    reveal_with_fuel(added_columns, 8);
    assert(created_tables(albums_steps()) =~= seq!["albums"]);
    assert(added_columns(albums_steps()) =~= Seq::<(&'static str, &'static str)>::empty());
}

proof fn lemma_songs_collects()
    ensures
        created_tables(songs_steps()) == seq!["songs"],
        added_columns(songs_steps()) == Seq::<(&'static str, &'static str)>::empty(),
{
    reveal_with_fuel(created_tables, 8);
    reveal_with_fuel(added_columns, 8);
    assert(created_tables(songs_steps()) =~= seq!["songs"]);
    assert(added_columns(songs_steps()) =~= Seq::<(&'static str, &'static str)>::empty());
}

proof fn lemma_playlists_collects()
    ensures
        created_tables(playlists_steps()) == seq!["playlists"],
        added_columns(playlists_steps()) == Seq::<(&'static str, &'static str)>::empty(),
{
    reveal_with_fuel(created_tables, 8);
    reveal_with_fuel(added_columns, 8);
    assert(created_tables(playlists_steps()) =~= seq!["playlists"]);
    assert(added_columns(playlists_steps()) =~= Seq::<(&'static str, &'static str)>::empty());
}

proof fn lemma_playlist_songs_collects()
    ensures
        created_tables(playlist_songs_steps()) == seq!["playlist_songs"],
        added_columns(playlist_songs_steps()) == Seq::<(&'static str, &'static str)>::empty(),
{
    reveal_with_fuel(created_tables, 8);
    reveal_with_fuel(added_columns, 8);
    assert(created_tables(playlist_songs_steps()) =~= seq!["playlist_songs"]);
    assert(added_columns(playlist_songs_steps()) =~= Seq::<(&'static str, &'static str)>::empty());
}

proof fn lemma_stars_collects()
    ensures
        created_tables(stars_steps()) == seq!["stars"],
        added_columns(stars_steps()) == Seq::<(&'static str, &'static str)>::empty(),
{
    reveal_with_fuel(created_tables, 8);
    reveal_with_fuel(added_columns, 8);
    assert(created_tables(stars_steps()) =~= seq!["stars"]);
    assert(added_columns(stars_steps()) =~= Seq::<(&'static str, &'static str)>::empty());
}

proof fn lemma_ratings_collects()
    ensures
        created_tables(ratings_steps()) == seq!["ratings"],
        added_columns(ratings_steps()) == Seq::<(&'static str, &'static str)>::empty(),
{
    reveal_with_fuel(created_tables, 8);
    reveal_with_fuel(added_columns, 8);
    assert(created_tables(ratings_steps()) =~= seq!["ratings"]);
    assert(added_columns(ratings_steps()) =~= Seq::<(&'static str, &'static str)>::empty());
}

proof fn lemma_scrobbles_collects()
    ensures
        created_tables(scrobbles_steps()) == seq!["scrobbles"],
        added_columns(scrobbles_steps()) == Seq::<(&'static str, &'static str)>::empty(),
{
    reveal_with_fuel(created_tables, 8);
    reveal_with_fuel(added_columns, 8);
    assert(created_tables(scrobbles_steps()) =~= seq!["scrobbles"]);
    assert(added_columns(scrobbles_steps()) =~= Seq::<(&'static str, &'static str)>::empty());
}

proof fn lemma_bookmarks_collects()
    ensures
        created_tables(bookmarks_steps()) == seq!["bookmarks"],
        added_columns(bookmarks_steps()) == Seq::<(&'static str, &'static str)>::empty(),
{
    reveal_with_fuel(created_tables, 8);
    reveal_with_fuel(added_columns, 8);
    assert(created_tables(bookmarks_steps()) =~= seq!["bookmarks"]);
    assert(added_columns(bookmarks_steps()) =~= Seq::<(&'static str, &'static str)>::empty());
}

proof fn lemma_shares_collects()
    ensures
        created_tables(shares_steps()) == seq!["shares"],
        added_columns(shares_steps()) == Seq::<(&'static str, &'static str)>::empty(),
{
    reveal_with_fuel(created_tables, 8);
    reveal_with_fuel(added_columns, 8);
    assert(created_tables(shares_steps()) =~= seq!["shares"]);
    assert(added_columns(shares_steps()) =~= Seq::<(&'static str, &'static str)>::empty());
}

proof fn lemma_sessions_collects()
    ensures
        created_tables(sessions_steps()) == seq!["sessions"],
        added_columns(sessions_steps()) == Seq::<(&'static str, &'static str)>::empty(),
{
    reveal_with_fuel(created_tables, 8);
    reveal_with_fuel(added_columns, 8);
    assert(created_tables(sessions_steps()) =~= seq!["sessions"]);
    assert(added_columns(sessions_steps()) =~= Seq::<(&'static str, &'static str)>::empty());
}

proof fn lemma_password_resets_collects()
    ensures
        created_tables(password_resets_steps()) == seq!["password_resets"],
        added_columns(password_resets_steps()) == Seq::<(&'static str, &'static str)>::empty(),
{
    reveal_with_fuel(created_tables, 8);
    reveal_with_fuel(added_columns, 8);
    assert(created_tables(password_resets_steps()) =~= seq!["password_resets"]);
    assert(added_columns(password_resets_steps()) =~= Seq::<(&'static str, &'static str)>::empty());
}

proof fn lemma_scan_tasks_collects()
    ensures
        created_tables(scan_tasks_steps()) == seq!["scan_tasks"],
        added_columns(scan_tasks_steps()) == Seq::<(&'static str, &'static str)>::empty(),
{
    reveal_with_fuel(created_tables, 8);
    reveal_with_fuel(added_columns, 8);
    assert(created_tables(scan_tasks_steps()) =~= seq!["scan_tasks"]);
    assert(added_columns(scan_tasks_steps()) =~= Seq::<(&'static str, &'static str)>::empty());
}

proof fn lemma_lyrics_collects()
    ensures
        created_tables(lyrics_steps()) == seq!["lyrics"],
        added_columns(lyrics_steps()) == Seq::<(&'static str, &'static str)>::empty(),
{
    reveal_with_fuel(created_tables, 8);
    reveal_with_fuel(added_columns, 8);
    assert(created_tables(lyrics_steps()) =~= seq!["lyrics"]);
    assert(added_columns(lyrics_steps()) =~= Seq::<(&'static str, &'static str)>::empty());
}

proof fn lemma_cover_art_collects()
    ensures
        created_tables(cover_art_steps()) == seq!["cover_art"],
        added_columns(cover_art_steps()) == Seq::<(&'static str, &'static str)>::empty(),
{
    reveal_with_fuel(created_tables, 8);
    reveal_with_fuel(added_columns, 8);
    assert(created_tables(cover_art_steps()) =~= seq!["cover_art"]);
    assert(added_columns(cover_art_steps()) =~= Seq::<(&'static str, &'static str)>::empty());
}

/// The tables the migration creates, in order, and the user columns it adds.
pub proof fn lemma_up_collects()
    ensures
        created_tables(up_plan()) == seq![
            "libraries",
            "user_libraries",
            "artists",
            "albums",
            "songs",
            "playlists",
            "playlist_songs",
            "stars",
            "ratings",
            "scrobbles",
            "bookmarks",
            "shares",
            "sessions",
            "password_resets",
            "scan_tasks",
            "lyrics",
            "cover_art",
        ],
        added_columns(up_plan()) == seq![
            ("users", "password_hash"),
            ("users", "email"),
            ("users", "privs"),
            ("users", "scrobbling_enabled"),
            ("users", "max_bit_rate"),
            ("users", "is_enabled"),
            ("users", "updated_at"),
        ],
{
    let ghost p0 = user_columns_added();
    assert(created_tables(p0) =~= Seq::<&'static str>::empty()) by {
        reveal_with_fuel(created_tables, 8);
    }
    assert(added_columns(p0) =~= seq![
        ("users", "password_hash"),
        ("users", "email"),
        ("users", "privs"),
        ("users", "scrobbling_enabled"),
        ("users", "max_bit_rate"),
        ("users", "is_enabled"),
        ("users", "updated_at"),
    ]) by {
        reveal_with_fuel(added_columns, 8);
    }
    let ghost p1 = p0 + libraries_steps();
    lemma_collect_append(p0, libraries_steps());
    lemma_libraries_collects();
    let ghost p2 = p1 + user_libraries_steps();
    lemma_collect_append(p1, user_libraries_steps());
    lemma_user_libraries_collects();
    let ghost p3 = p2 + artists_steps();
    lemma_collect_append(p2, artists_steps());
    lemma_artists_collects();
    let ghost p4 = p3 + albums_steps();
    lemma_collect_append(p3, albums_steps());
    lemma_albums_collects();
    let ghost p5 = p4 + songs_steps();
    lemma_collect_append(p4, songs_steps());
    lemma_songs_collects();
    let ghost p6 = p5 + playlists_steps();
    lemma_collect_append(p5, playlists_steps());
    lemma_playlists_collects();
    let ghost p7 = p6 + playlist_songs_steps();
    lemma_collect_append(p6, playlist_songs_steps());
    lemma_playlist_songs_collects();
    let ghost p8 = p7 + stars_steps();
    lemma_collect_append(p7, stars_steps());
    lemma_stars_collects();
    let ghost p9 = p8 + ratings_steps();
    lemma_collect_append(p8, ratings_steps());
    lemma_ratings_collects();
    let ghost p10 = p9 + scrobbles_steps();
    lemma_collect_append(p9, scrobbles_steps());
    lemma_scrobbles_collects();
    let ghost p11 = p10 + bookmarks_steps();
    lemma_collect_append(p10, bookmarks_steps());
    lemma_bookmarks_collects();
    let ghost p12 = p11 + shares_steps();
    lemma_collect_append(p11, shares_steps());
    lemma_shares_collects();
    let ghost p13 = p12 + sessions_steps();
    lemma_collect_append(p12, sessions_steps());
    lemma_sessions_collects();
    let ghost p14 = p13 + password_resets_steps();
    lemma_collect_append(p13, password_resets_steps());
    lemma_password_resets_collects();
    let ghost p15 = p14 + scan_tasks_steps();
    lemma_collect_append(p14, scan_tasks_steps());
    lemma_scan_tasks_collects();
    let ghost p16 = p15 + lyrics_steps();
    lemma_collect_append(p15, lyrics_steps());
    lemma_lyrics_collects();
    let ghost p17 = p16 + cover_art_steps();
    lemma_collect_append(p16, cover_art_steps());
    lemma_cover_art_collects();
    assert(p17 == up_plan());
    assert(created_tables(up_plan()) =~= seq![
        "libraries",
        "user_libraries",
        "artists",
        "albums",
        "songs",
        "playlists",
        "playlist_songs",
        "stars",
        "ratings",
        "scrobbles",
        "bookmarks",
        "shares",
        "sessions",
        "password_resets",
        "scan_tasks",
        "lyrics",
        "cover_art",
    ]);
    assert(added_columns(up_plan()) =~= seq![
        ("users", "password_hash"),
        ("users", "email"),
        ("users", "privs"),
        ("users", "scrobbling_enabled"),
        ("users", "max_bit_rate"),
        ("users", "is_enabled"),
        ("users", "updated_at"),
    ]);
}

/// Rolling the migration back undoes it: the tables it created are dropped
/// in the reverse order of their creation, and the columns it added are
/// dropped.
pub proof fn lemma_down_undoes_up()
    ensures
        dropped_tables(down_plan()) == created_tables(up_plan()).reverse(),
        dropped_columns(down_plan()) == added_columns(up_plan()),
{
    lemma_up_collects();
    reveal_with_fuel(dropped_tables, 26);
    reveal_with_fuel(dropped_columns, 26);
    assert(dropped_tables(down_plan()) =~= created_tables(up_plan()).reverse());
    assert(dropped_columns(down_plan()) =~= added_columns(up_plan()));
}

/// Whether, after `prior` has run on a database holding the users table,
/// table `t` has column `c`.
pub open spec fn has_column(prior: Seq<StepView>, t: &'static str, c: &'static str) -> bool
    decreases prior.len(),
{
    if prior.len() == 0 {
        t == "users" && (c == "id" || c == "username" || c == "created_at")
    } else {
        has_column(prior.drop_last(), t, c) || match prior.last() {
            StepView::CreateTable(n, cols, _, _) => n == t && column_names(cols).contains(c),
            StepView::AddColumn(n, col) => n == t && col.name == c,
            _ => false,
        }
    }
}

/// The names of columns.
pub open spec fn column_names(cols: Seq<ColumnDef>) -> Seq<&'static str> {
    cols.map_values(|c: ColumnDef| c.name)
}

/// Whether a step, run after `prior`, refers only to what exists: a new
/// table's key and foreign-key columns are its own, each foreign key points
/// to an existing column, and an index covers existing columns of its table.
pub open spec fn step_refs_ok(prior: Seq<StepView>, s: StepView) -> bool {
    match s {
        StepView::CreateTable(_, cols, pk, fks) => (forall|k: int|
            0 <= k < pk.len() ==> column_names(cols).contains(#[trigger] pk[k])) && (forall|k: int|
            0 <= k < fks.len() ==> column_names(cols).contains((#[trigger] fks[k]).column)
                && has_column(prior, fks[k].to_table, fks[k].to_column)),
        StepView::CreateIndex(_, t, cs, _) => forall|k: int|
            0 <= k < cs.len() ==> has_column(prior, t, #[trigger] cs[k]),
        _ => true,
    }
}

/// Whether every step of a plan refers only to what exists when it runs.
pub open spec fn refs_resolve(plan: Seq<StepView>) -> bool {
    forall|i: int| 0 <= i < plan.len() ==> step_refs_ok(plan.take(i), #[trigger] plan[i])
}

proof fn lemma_has_column_grows(a: Seq<StepView>, b: Seq<StepView>, t: &'static str, c: &'static str)
    requires
        has_column(a, t, c),
    ensures
        has_column(a + b, t, c),
    decreases b.len(),
{
    if b.len() > 0 {
        lemma_has_column_grows(a, b.drop_last(), t, c);
        assert((a + b).drop_last() =~= a + b.drop_last());
    }
}

proof fn lemma_refs_append(a: Seq<StepView>, b: Seq<StepView>)
    requires
        refs_resolve(a),
        forall|i: int| 0 <= i < b.len() ==> step_refs_ok(a + b.take(i), #[trigger] b[i]),
    ensures
        refs_resolve(a + b),
{
    assert forall|i: int| 0 <= i < (a + b).len() implies step_refs_ok(
        (a + b).take(i),
        #[trigger] (a + b)[i],
    ) by {
        if i < a.len() {
            assert((a + b).take(i) =~= a.take(i));
            assert((a + b)[i] == a[i]);
        } else {
            let j = i - a.len();
            assert((a + b).take(i) =~= a + b.take(j));
            assert((a + b)[i] == b[j]);
        }
    }
}

proof fn lemma_libraries_refs(prior: Seq<StepView>)
    ensures
        forall|i: int|
            0 <= i < libraries_steps().len() ==> step_refs_ok(
                prior + libraries_steps().take(i),
                #[trigger] libraries_steps()[i],
            ),
        has_column(prior + libraries_steps(), "libraries", "id"),
{
    let ghost steps = libraries_steps();
    let ghost table = steps[0];
    let ghost with_table = prior.push(table);
    if let StepView::CreateTable(_, cols, _, _) = table {
        let ghost names = column_names(cols);
        assert(names[0] == "id");
        assert(names[1] == "name");
        assert(names[2] == "path");
        assert(names[3] == "is_enabled");
        assert(names[4] == "watch_enabled");
        assert(names[5] == "created_at");
    }
    assert(with_table.drop_last() =~= prior);
    assert(has_column(with_table, "libraries", "id"));
    assert(steps.take(0) =~= Seq::<StepView>::empty());
    assert(prior + steps.take(0) =~= prior);
    assert(step_refs_ok(prior, table));
    assert forall|i: int| 0 <= i < steps.len() implies step_refs_ok(
        prior + steps.take(i),
        #[trigger] steps[i],
    ) by {
        if i > 0 {
            assert(prior + steps.take(i) =~= with_table + steps.take(i).skip(1));
            if let StepView::CreateIndex(_, it, cs, _) = steps[i] {
                assert forall|k: int| 0 <= k < cs.len() implies has_column(
                    prior + steps.take(i),
                    it,
                    #[trigger] cs[k],
                ) by {
                    lemma_has_column_grows(with_table, steps.take(i).skip(1), it, cs[k]);
                }
            }
        }
    }
    assert(prior + steps =~= with_table + steps.skip(1));
    lemma_has_column_grows(with_table, steps.skip(1), "libraries", "id");
}

proof fn lemma_user_libraries_refs(prior: Seq<StepView>)
    requires
        has_column(prior, "libraries", "id"),
        has_column(prior, "users", "id"),
    ensures
        forall|i: int|
            0 <= i < user_libraries_steps().len() ==> step_refs_ok(
                prior + user_libraries_steps().take(i),
                #[trigger] user_libraries_steps()[i],
            ),
        has_column(prior + user_libraries_steps(), "user_libraries", "user_id"),
{
    let ghost steps = user_libraries_steps();
    let ghost table = steps[0];
    let ghost with_table = prior.push(table);
    if let StepView::CreateTable(_, cols, _, _) = table {
        let ghost names = column_names(cols);
        assert(names[0] == "user_id");
        assert(names[1] == "library_id");
        assert(names[2] == "is_enabled");
    }
    assert(with_table.drop_last() =~= prior);
    assert(has_column(with_table, "user_libraries", "user_id"));
    assert(steps.take(0) =~= Seq::<StepView>::empty());
    assert(prior + steps.take(0) =~= prior);
    assert(step_refs_ok(prior, table));
    assert forall|i: int| 0 <= i < steps.len() implies step_refs_ok(
        prior + steps.take(i),
        #[trigger] steps[i],
    ) by {
        if i > 0 {
            assert(prior + steps.take(i) =~= with_table + steps.take(i).skip(1));
            if let StepView::CreateIndex(_, it, cs, _) = steps[i] {
                assert forall|k: int| 0 <= k < cs.len() implies has_column(
                    prior + steps.take(i),
                    it,
                    #[trigger] cs[k],
                ) by {
                    lemma_has_column_grows(with_table, steps.take(i).skip(1), it, cs[k]);
                }
            }
        }
    }
    assert(prior + steps =~= with_table + steps.skip(1));
    lemma_has_column_grows(with_table, steps.skip(1), "user_libraries", "user_id");
}

proof fn lemma_artists_refs(prior: Seq<StepView>)
    requires
        has_column(prior, "libraries", "id"),
    ensures
        forall|i: int|
            0 <= i < artists_steps().len() ==> step_refs_ok(
                prior + artists_steps().take(i),
                #[trigger] artists_steps()[i],
            ),
        has_column(prior + artists_steps(), "artists", "id"),
{
    let ghost steps = artists_steps();
    let ghost table = steps[0];
    let ghost with_table = prior.push(table);
    if let StepView::CreateTable(_, cols, _, _) = table {
        let ghost names = column_names(cols);
        assert(names[0] == "id");
        assert(names[1] == "name");
        assert(names[2] == "sort_name");
        assert(names[3] == "library_id");
        assert(names[4] == "created_at");
    }
    assert(with_table.drop_last() =~= prior);
    assert(has_column(with_table, "artists", "name"));
    assert(has_column(with_table, "artists", "sort_name"));
    assert(has_column(with_table, "artists", "library_id"));
    assert(has_column(with_table, "artists", "id"));
    assert(steps.take(0) =~= Seq::<StepView>::empty());
    assert(prior + steps.take(0) =~= prior);
    assert(step_refs_ok(prior, table));
    assert forall|i: int| 0 <= i < steps.len() implies step_refs_ok(
        prior + steps.take(i),
        #[trigger] steps[i],
    ) by {
        if i > 0 {
            assert(prior + steps.take(i) =~= with_table + steps.take(i).skip(1));
            if let StepView::CreateIndex(_, it, cs, _) = steps[i] {
                assert forall|k: int| 0 <= k < cs.len() implies has_column(
                    prior + steps.take(i),
                    it,
                    #[trigger] cs[k],
                ) by {
                    lemma_has_column_grows(with_table, steps.take(i).skip(1), it, cs[k]);
                }
            }
        }
    }
    assert(prior + steps =~= with_table + steps.skip(1));
    lemma_has_column_grows(with_table, steps.skip(1), "artists", "id");
}

proof fn lemma_albums_refs(prior: Seq<StepView>)
    requires
        has_column(prior, "artists", "id"),
        has_column(prior, "libraries", "id"),
    ensures
        forall|i: int|
            0 <= i < albums_steps().len() ==> step_refs_ok(
                prior + albums_steps().take(i),
                #[trigger] albums_steps()[i],
            ),
        has_column(prior + albums_steps(), "albums", "id"),
{
    let ghost steps = albums_steps();
    let ghost table = steps[0];
    let ghost with_table = prior.push(table);
    if let StepView::CreateTable(_, cols, _, _) = table {
        let ghost names = column_names(cols);
        assert(names[0] == "id");
        assert(names[1] == "name");
        assert(names[2] == "artist_id");
        assert(names[3] == "year");
        assert(names[4] == "library_id");
        assert(names[5] == "created_at");
    }
    assert(with_table.drop_last() =~= prior);
    assert(has_column(with_table, "albums", "artist_id"));
    assert(has_column(with_table, "albums", "year"));
    assert(has_column(with_table, "albums", "name"));
    assert(has_column(with_table, "albums", "library_id"));
    assert(has_column(with_table, "albums", "id"));
    assert(steps.take(0) =~= Seq::<StepView>::empty());
    assert(prior + steps.take(0) =~= prior);
    assert(step_refs_ok(prior, table));
    assert forall|i: int| 0 <= i < steps.len() implies step_refs_ok(
        prior + steps.take(i),
        #[trigger] steps[i],
    ) by {
        if i > 0 {
            assert(prior + steps.take(i) =~= with_table + steps.take(i).skip(1));
            if let StepView::CreateIndex(_, it, cs, _) = steps[i] {
                assert forall|k: int| 0 <= k < cs.len() implies has_column(
                    prior + steps.take(i),
                    it,
                    #[trigger] cs[k],
                ) by {
                    lemma_has_column_grows(with_table, steps.take(i).skip(1), it, cs[k]);
                }
            }
        }
    }
    assert(prior + steps =~= with_table + steps.skip(1));
    lemma_has_column_grows(with_table, steps.skip(1), "albums", "id");
}

proof fn lemma_songs_refs(prior: Seq<StepView>)
    requires
        has_column(prior, "albums", "id"),
        has_column(prior, "artists", "id"),
        has_column(prior, "libraries", "id"),
    ensures
        forall|i: int|
            0 <= i < songs_steps().len() ==> step_refs_ok(
                prior + songs_steps().take(i),
                #[trigger] songs_steps()[i],
            ),
        has_column(prior + songs_steps(), "songs", "id"),
{
    let ghost steps = songs_steps();
    let ghost table = steps[0];
    let ghost with_table = prior.push(table);
    if let StepView::CreateTable(_, cols, _, _) = table {
        let ghost names = column_names(cols);
        assert(names[0] == "id");
        assert(names[1] == "title");
        assert(names[2] == "artist_id");
        assert(names[3] == "album_id");
        assert(names[4] == "track_number");
        assert(names[5] == "disc_number");
        assert(names[6] == "duration_secs");
        assert(names[7] == "bit_rate");
        assert(names[8] == "size_bytes");
        assert(names[9] == "file_format");
        assert(names[10] == "content_type");
        assert(names[11] == "year");
        assert(names[12] == "file_path");
        assert(names[13] == "has_cover_art");
        assert(names[14] == "library_id");
        assert(names[15] == "created_at");
    }
    assert(with_table.drop_last() =~= prior);
    assert(has_column(with_table, "songs", "created_at"));
    assert(has_column(with_table, "songs", "library_id"));
    assert(has_column(with_table, "songs", "album_id"));
    assert(has_column(with_table, "songs", "artist_id"));
    assert(has_column(with_table, "songs", "year"));
    assert(has_column(with_table, "songs", "title"));
    assert(has_column(with_table, "songs", "id"));
    assert(steps.take(0) =~= Seq::<StepView>::empty());
    assert(prior + steps.take(0) =~= prior);
    assert(step_refs_ok(prior, table));
    assert forall|i: int| 0 <= i < steps.len() implies step_refs_ok(
        prior + steps.take(i),
        #[trigger] steps[i],
    ) by {
        if i > 0 {
            assert(prior + steps.take(i) =~= with_table + steps.take(i).skip(1));
            if let StepView::CreateIndex(_, it, cs, _) = steps[i] {
                assert forall|k: int| 0 <= k < cs.len() implies has_column(
                    prior + steps.take(i),
                    it,
                    #[trigger] cs[k],
                ) by {
                    lemma_has_column_grows(with_table, steps.take(i).skip(1), it, cs[k]);
                }
            }
        }
    }
    assert(prior + steps =~= with_table + steps.skip(1));
    lemma_has_column_grows(with_table, steps.skip(1), "songs", "id");
}

proof fn lemma_playlists_refs(prior: Seq<StepView>)
    requires
        has_column(prior, "users", "id"),
    ensures
        forall|i: int|
            0 <= i < playlists_steps().len() ==> step_refs_ok(
                prior + playlists_steps().take(i),
                #[trigger] playlists_steps()[i],
            ),
        has_column(prior + playlists_steps(), "playlists", "id"),
{
    let ghost steps = playlists_steps();
    let ghost table = steps[0];
    let ghost with_table = prior.push(table);
    if let StepView::CreateTable(_, cols, _, _) = table {
        let ghost names = column_names(cols);
        assert(names[0] == "id");
        assert(names[1] == "name");
        assert(names[2] == "owner_id");
        assert(names[3] == "comment");
        assert(names[4] == "is_public");
        assert(names[5] == "created_at");
        assert(names[6] == "updated_at");
    }
    assert(with_table.drop_last() =~= prior);
    assert(has_column(with_table, "playlists", "owner_id"));
    assert(has_column(with_table, "playlists", "id"));
    assert(steps.take(0) =~= Seq::<StepView>::empty());
    assert(prior + steps.take(0) =~= prior);
    assert(step_refs_ok(prior, table));
    assert forall|i: int| 0 <= i < steps.len() implies step_refs_ok(
        prior + steps.take(i),
        #[trigger] steps[i],
    ) by {
        if i > 0 {
            assert(prior + steps.take(i) =~= with_table + steps.take(i).skip(1));
            if let StepView::CreateIndex(_, it, cs, _) = steps[i] {
                assert forall|k: int| 0 <= k < cs.len() implies has_column(
                    prior + steps.take(i),
                    it,
                    #[trigger] cs[k],
                ) by {
                    lemma_has_column_grows(with_table, steps.take(i).skip(1), it, cs[k]);
                }
            }
        }
    }
    assert(prior + steps =~= with_table + steps.skip(1));
    lemma_has_column_grows(with_table, steps.skip(1), "playlists", "id");
}

proof fn lemma_playlist_songs_refs(prior: Seq<StepView>)
    requires
        has_column(prior, "playlists", "id"),
        has_column(prior, "songs", "id"),
    ensures
        forall|i: int|
            0 <= i < playlist_songs_steps().len() ==> step_refs_ok(
                prior + playlist_songs_steps().take(i),
                #[trigger] playlist_songs_steps()[i],
            ),
        has_column(prior + playlist_songs_steps(), "playlist_songs", "playlist_id"),
{
    let ghost steps = playlist_songs_steps();
    let ghost table = steps[0];
    let ghost with_table = prior.push(table);
    if let StepView::CreateTable(_, cols, _, _) = table {
        let ghost names = column_names(cols);
        assert(names[0] == "playlist_id");
        assert(names[1] == "song_id");
        assert(names[2] == "position");
        assert(names[3] == "added_at");
    }
    assert(with_table.drop_last() =~= prior);
    assert(has_column(with_table, "playlist_songs", "playlist_id"));
    assert(steps.take(0) =~= Seq::<StepView>::empty());
    assert(prior + steps.take(0) =~= prior);
    assert(step_refs_ok(prior, table));
    assert forall|i: int| 0 <= i < steps.len() implies step_refs_ok(
        prior + steps.take(i),
        #[trigger] steps[i],
    ) by {
        if i > 0 {
            assert(prior + steps.take(i) =~= with_table + steps.take(i).skip(1));
            if let StepView::CreateIndex(_, it, cs, _) = steps[i] {
                assert forall|k: int| 0 <= k < cs.len() implies has_column(
                    prior + steps.take(i),
                    it,
                    #[trigger] cs[k],
                ) by {
                    lemma_has_column_grows(with_table, steps.take(i).skip(1), it, cs[k]);
                }
            }
        }
    }
    assert(prior + steps =~= with_table + steps.skip(1));
    lemma_has_column_grows(with_table, steps.skip(1), "playlist_songs", "playlist_id");
}

proof fn lemma_stars_refs(prior: Seq<StepView>)
    requires
        has_column(prior, "users", "id"),
    ensures
        forall|i: int|
            0 <= i < stars_steps().len() ==> step_refs_ok(
                prior + stars_steps().take(i),
                #[trigger] stars_steps()[i],
            ),
        has_column(prior + stars_steps(), "stars", "user_id"),
{
    let ghost steps = stars_steps();
    let ghost table = steps[0];
    let ghost with_table = prior.push(table);
    if let StepView::CreateTable(_, cols, _, _) = table {
        let ghost names = column_names(cols);
        assert(names[0] == "user_id");
        assert(names[1] == "item_type");
        assert(names[2] == "item_id");
        assert(names[3] == "starred_at");
    }
    assert(with_table.drop_last() =~= prior);
    assert(has_column(with_table, "stars", "user_id"));
    assert(has_column(with_table, "stars", "item_type"));
    assert(has_column(with_table, "stars", "item_id"));
    assert(has_column(with_table, "stars", "user_id"));
    assert(steps.take(0) =~= Seq::<StepView>::empty());
    assert(prior + steps.take(0) =~= prior);
    assert(step_refs_ok(prior, table));
    assert forall|i: int| 0 <= i < steps.len() implies step_refs_ok(
        prior + steps.take(i),
        #[trigger] steps[i],
    ) by {
        if i > 0 {
            assert(prior + steps.take(i) =~= with_table + steps.take(i).skip(1));
            if let StepView::CreateIndex(_, it, cs, _) = steps[i] {
                assert forall|k: int| 0 <= k < cs.len() implies has_column(
                    prior + steps.take(i),
                    it,
                    #[trigger] cs[k],
                ) by {
                    lemma_has_column_grows(with_table, steps.take(i).skip(1), it, cs[k]);
                }
            }
        }
    }
    assert(prior + steps =~= with_table + steps.skip(1));
    lemma_has_column_grows(with_table, steps.skip(1), "stars", "user_id");
}

proof fn lemma_ratings_refs(prior: Seq<StepView>)
    requires
        has_column(prior, "users", "id"),
    ensures
        forall|i: int|
            0 <= i < ratings_steps().len() ==> step_refs_ok(
                prior + ratings_steps().take(i),
                #[trigger] ratings_steps()[i],
            ),
        has_column(prior + ratings_steps(), "ratings", "user_id"),
{
    let ghost steps = ratings_steps();
    let ghost table = steps[0];
    let ghost with_table = prior.push(table);
    if let StepView::CreateTable(_, cols, _, _) = table {
        let ghost names = column_names(cols);
        assert(names[0] == "user_id");
        assert(names[1] == "item_type");
        assert(names[2] == "item_id");
        assert(names[3] == "rating");
        assert(names[4] == "rated_at");
    }
    assert(with_table.drop_last() =~= prior);
    assert(has_column(with_table, "ratings", "user_id"));
    assert(steps.take(0) =~= Seq::<StepView>::empty());
    assert(prior + steps.take(0) =~= prior);
    assert(step_refs_ok(prior, table));
    assert forall|i: int| 0 <= i < steps.len() implies step_refs_ok(
        prior + steps.take(i),
        #[trigger] steps[i],
    ) by {
        if i > 0 {
            assert(prior + steps.take(i) =~= with_table + steps.take(i).skip(1));
            if let StepView::CreateIndex(_, it, cs, _) = steps[i] {
                assert forall|k: int| 0 <= k < cs.len() implies has_column(
                    prior + steps.take(i),
                    it,
                    #[trigger] cs[k],
                ) by {
                    lemma_has_column_grows(with_table, steps.take(i).skip(1), it, cs[k]);
                }
            }
        }
    }
    assert(prior + steps =~= with_table + steps.skip(1));
    lemma_has_column_grows(with_table, steps.skip(1), "ratings", "user_id");
}

proof fn lemma_scrobbles_refs(prior: Seq<StepView>)
    requires
        has_column(prior, "songs", "id"),
        has_column(prior, "users", "id"),
    ensures
        forall|i: int|
            0 <= i < scrobbles_steps().len() ==> step_refs_ok(
                prior + scrobbles_steps().take(i),
                #[trigger] scrobbles_steps()[i],
            ),
        has_column(prior + scrobbles_steps(), "scrobbles", "id"),
{
    let ghost steps = scrobbles_steps();
    let ghost table = steps[0];
    let ghost with_table = prior.push(table);
    if let StepView::CreateTable(_, cols, _, _) = table {
        let ghost names = column_names(cols);
        assert(names[0] == "id");
        assert(names[1] == "user_id");
        assert(names[2] == "song_id");
        assert(names[3] == "submission");
        assert(names[4] == "played_at");
    }
    assert(with_table.drop_last() =~= prior);
    assert(has_column(with_table, "scrobbles", "user_id"));
    assert(has_column(with_table, "scrobbles", "song_id"));
    assert(has_column(with_table, "scrobbles", "played_at"));
    assert(has_column(with_table, "scrobbles", "id"));
    assert(steps.take(0) =~= Seq::<StepView>::empty());
    assert(prior + steps.take(0) =~= prior);
    assert(step_refs_ok(prior, table));
    assert forall|i: int| 0 <= i < steps.len() implies step_refs_ok(
        prior + steps.take(i),
        #[trigger] steps[i],
    ) by {
        if i > 0 {
            assert(prior + steps.take(i) =~= with_table + steps.take(i).skip(1));
            if let StepView::CreateIndex(_, it, cs, _) = steps[i] {
                assert forall|k: int| 0 <= k < cs.len() implies has_column(
                    prior + steps.take(i),
                    it,
                    #[trigger] cs[k],
                ) by {
                    lemma_has_column_grows(with_table, steps.take(i).skip(1), it, cs[k]);
                }
            }
        }
    }
    assert(prior + steps =~= with_table + steps.skip(1));
    lemma_has_column_grows(with_table, steps.skip(1), "scrobbles", "id");
}

proof fn lemma_bookmarks_refs(prior: Seq<StepView>)
    requires
        has_column(prior, "songs", "id"),
        has_column(prior, "users", "id"),
    ensures
        forall|i: int|
            0 <= i < bookmarks_steps().len() ==> step_refs_ok(
                prior + bookmarks_steps().take(i),
                #[trigger] bookmarks_steps()[i],
            ),
        has_column(prior + bookmarks_steps(), "bookmarks", "id"),
{
    let ghost steps = bookmarks_steps();
    let ghost table = steps[0];
    let ghost with_table = prior.push(table);
    if let StepView::CreateTable(_, cols, _, _) = table {
        let ghost names = column_names(cols);
        assert(names[0] == "id");
        assert(names[1] == "user_id");
        assert(names[2] == "song_id");
        assert(names[3] == "position_ms");
        assert(names[4] == "device_id");
        assert(names[5] == "updated_at");
    }
    assert(with_table.drop_last() =~= prior);
    assert(has_column(with_table, "bookmarks", "id"));
    assert(steps.take(0) =~= Seq::<StepView>::empty());
    assert(prior + steps.take(0) =~= prior);
    assert(step_refs_ok(prior, table));
    assert forall|i: int| 0 <= i < steps.len() implies step_refs_ok(
        prior + steps.take(i),
        #[trigger] steps[i],
    ) by {
        if i > 0 {
            assert(prior + steps.take(i) =~= with_table + steps.take(i).skip(1));
            if let StepView::CreateIndex(_, it, cs, _) = steps[i] {
                assert forall|k: int| 0 <= k < cs.len() implies has_column(
                    prior + steps.take(i),
                    it,
                    #[trigger] cs[k],
                ) by {
                    lemma_has_column_grows(with_table, steps.take(i).skip(1), it, cs[k]);
                }
            }
        }
    }
    assert(prior + steps =~= with_table + steps.skip(1));
    lemma_has_column_grows(with_table, steps.skip(1), "bookmarks", "id");
}

proof fn lemma_shares_refs(prior: Seq<StepView>)
    requires
        has_column(prior, "users", "id"),
    ensures
        forall|i: int|
            0 <= i < shares_steps().len() ==> step_refs_ok(
                prior + shares_steps().take(i),
                #[trigger] shares_steps()[i],
            ),
        has_column(prior + shares_steps(), "shares", "id"),
{
    let ghost steps = shares_steps();
    let ghost table = steps[0];
    let ghost with_table = prior.push(table);
    if let StepView::CreateTable(_, cols, _, _) = table {
        let ghost names = column_names(cols);
        assert(names[0] == "id");
        assert(names[1] == "owner_id");
        assert(names[2] == "item_type");
        assert(names[3] == "item_id");
        assert(names[4] == "description");
        assert(names[5] == "token");
        assert(names[6] == "visit_count");
        assert(names[7] == "last_visited_at");
        assert(names[8] == "expires_at");
        assert(names[9] == "created_at");
    }
    assert(with_table.drop_last() =~= prior);
    assert(has_column(with_table, "shares", "owner_id"));
    assert(has_column(with_table, "shares", "token"));
    assert(has_column(with_table, "shares", "id"));
    assert(steps.take(0) =~= Seq::<StepView>::empty());
    assert(prior + steps.take(0) =~= prior);
    assert(step_refs_ok(prior, table));
    assert forall|i: int| 0 <= i < steps.len() implies step_refs_ok(
        prior + steps.take(i),
        #[trigger] steps[i],
    ) by {
        if i > 0 {
            assert(prior + steps.take(i) =~= with_table + steps.take(i).skip(1));
            if let StepView::CreateIndex(_, it, cs, _) = steps[i] {
                assert forall|k: int| 0 <= k < cs.len() implies has_column(
                    prior + steps.take(i),
                    it,
                    #[trigger] cs[k],
                ) by {
                    lemma_has_column_grows(with_table, steps.take(i).skip(1), it, cs[k]);
                }
            }
        }
    }
    assert(prior + steps =~= with_table + steps.skip(1));
    lemma_has_column_grows(with_table, steps.skip(1), "shares", "id");
}

proof fn lemma_sessions_refs(prior: Seq<StepView>)
    requires
        has_column(prior, "users", "id"),
    ensures
        forall|i: int|
            0 <= i < sessions_steps().len() ==> step_refs_ok(
                prior + sessions_steps().take(i),
                #[trigger] sessions_steps()[i],
            ),
        has_column(prior + sessions_steps(), "sessions", "id"),
{
    let ghost steps = sessions_steps();
    let ghost table = steps[0];
    let ghost with_table = prior.push(table);
    if let StepView::CreateTable(_, cols, _, _) = table {
        let ghost names = column_names(cols);
        assert(names[0] == "id");
        assert(names[1] == "user_id");
        assert(names[2] == "token");
        assert(names[3] == "device_info");
        assert(names[4] == "created_at");
        assert(names[5] == "last_used_at");
        assert(names[6] == "expires_at");
    }
    assert(with_table.drop_last() =~= prior);
    assert(has_column(with_table, "sessions", "user_id"));
    assert(has_column(with_table, "sessions", "token"));
    assert(has_column(with_table, "sessions", "id"));
    assert(steps.take(0) =~= Seq::<StepView>::empty());
    assert(prior + steps.take(0) =~= prior);
    assert(step_refs_ok(prior, table));
    assert forall|i: int| 0 <= i < steps.len() implies step_refs_ok(
        prior + steps.take(i),
        #[trigger] steps[i],
    ) by {
        if i > 0 {
            assert(prior + steps.take(i) =~= with_table + steps.take(i).skip(1));
            if let StepView::CreateIndex(_, it, cs, _) = steps[i] {
                assert forall|k: int| 0 <= k < cs.len() implies has_column(
                    prior + steps.take(i),
                    it,
                    #[trigger] cs[k],
                ) by {
                    lemma_has_column_grows(with_table, steps.take(i).skip(1), it, cs[k]);
                }
            }
        }
    }
    assert(prior + steps =~= with_table + steps.skip(1));
    lemma_has_column_grows(with_table, steps.skip(1), "sessions", "id");
}

proof fn lemma_password_resets_refs(prior: Seq<StepView>)
    ensures
        forall|i: int|
            0 <= i < password_resets_steps().len() ==> step_refs_ok(
                prior + password_resets_steps().take(i),
                #[trigger] password_resets_steps()[i],
            ),
        has_column(prior + password_resets_steps(), "password_resets", "id"),
{
    let ghost steps = password_resets_steps();
    let ghost table = steps[0];
    let ghost with_table = prior.push(table);
    if let StepView::CreateTable(_, cols, _, _) = table {
        let ghost names = column_names(cols);
        assert(names[0] == "id");
        assert(names[1] == "email");
        assert(names[2] == "code");
        assert(names[3] == "expires_at");
        assert(names[4] == "used");
        assert(names[5] == "created_at");
    }
    assert(with_table.drop_last() =~= prior);
    assert(has_column(with_table, "password_resets", "email"));
    assert(has_column(with_table, "password_resets", "id"));
    assert(steps.take(0) =~= Seq::<StepView>::empty());
    assert(prior + steps.take(0) =~= prior);
    assert(step_refs_ok(prior, table));
    assert forall|i: int| 0 <= i < steps.len() implies step_refs_ok(
        prior + steps.take(i),
        #[trigger] steps[i],
    ) by {
        if i > 0 {
            assert(prior + steps.take(i) =~= with_table + steps.take(i).skip(1));
            if let StepView::CreateIndex(_, it, cs, _) = steps[i] {
                assert forall|k: int| 0 <= k < cs.len() implies has_column(
                    prior + steps.take(i),
                    it,
                    #[trigger] cs[k],
                ) by {
                    lemma_has_column_grows(with_table, steps.take(i).skip(1), it, cs[k]);
                }
            }
        }
    }
    assert(prior + steps =~= with_table + steps.skip(1));
    lemma_has_column_grows(with_table, steps.skip(1), "password_resets", "id");
}

proof fn lemma_scan_tasks_refs(prior: Seq<StepView>)
    ensures
        forall|i: int|
            0 <= i < scan_tasks_steps().len() ==> step_refs_ok(
                prior + scan_tasks_steps().take(i),
                #[trigger] scan_tasks_steps()[i],
            ),
        has_column(prior + scan_tasks_steps(), "scan_tasks", "id"),
{
    let ghost steps = scan_tasks_steps();
    let ghost table = steps[0];
    let ghost with_table = prior.push(table);
    if let StepView::CreateTable(_, cols, _, _) = table {
        let ghost names = column_names(cols);
        assert(names[0] == "id");
        assert(names[1] == "status");
        assert(names[2] == "files_scanned");
        assert(names[3] == "files_total");
        assert(names[4] == "started_at");
        assert(names[5] == "finished_at");
        assert(names[6] == "error");
    }
    assert(with_table.drop_last() =~= prior);
    assert(has_column(with_table, "scan_tasks", "id"));
    assert(steps.take(0) =~= Seq::<StepView>::empty());
    assert(prior + steps.take(0) =~= prior);
    assert(step_refs_ok(prior, table));
    assert forall|i: int| 0 <= i < steps.len() implies step_refs_ok(
        prior + steps.take(i),
        #[trigger] steps[i],
    ) by {
        if i > 0 {
            assert(prior + steps.take(i) =~= with_table + steps.take(i).skip(1));
            if let StepView::CreateIndex(_, it, cs, _) = steps[i] {
                assert forall|k: int| 0 <= k < cs.len() implies has_column(
                    prior + steps.take(i),
                    it,
                    #[trigger] cs[k],
                ) by {
                    lemma_has_column_grows(with_table, steps.take(i).skip(1), it, cs[k]);
                }
            }
        }
    }
    assert(prior + steps =~= with_table + steps.skip(1));
    lemma_has_column_grows(with_table, steps.skip(1), "scan_tasks", "id");
}

proof fn lemma_lyrics_refs(prior: Seq<StepView>)
    requires
        has_column(prior, "songs", "id"),
    ensures
        forall|i: int|
            0 <= i < lyrics_steps().len() ==> step_refs_ok(
                prior + lyrics_steps().take(i),
                #[trigger] lyrics_steps()[i],
            ),
        has_column(prior + lyrics_steps(), "lyrics", "song_id"),
{
    let ghost steps = lyrics_steps();
    let ghost table = steps[0];
    let ghost with_table = prior.push(table);
    if let StepView::CreateTable(_, cols, _, _) = table {
        let ghost names = column_names(cols);
        assert(names[0] == "song_id");
        assert(names[1] == "type");
        assert(names[2] == "content");
    }
    assert(with_table.drop_last() =~= prior);
    assert(has_column(with_table, "lyrics", "song_id"));
    assert(steps.take(0) =~= Seq::<StepView>::empty());
    assert(prior + steps.take(0) =~= prior);
    assert(step_refs_ok(prior, table));
    assert forall|i: int| 0 <= i < steps.len() implies step_refs_ok(
        prior + steps.take(i),
        #[trigger] steps[i],
    ) by {
        if i > 0 {
            assert(prior + steps.take(i) =~= with_table + steps.take(i).skip(1));
            if let StepView::CreateIndex(_, it, cs, _) = steps[i] {
                assert forall|k: int| 0 <= k < cs.len() implies has_column(
                    prior + steps.take(i),
                    it,
                    #[trigger] cs[k],
                ) by {
                    lemma_has_column_grows(with_table, steps.take(i).skip(1), it, cs[k]);
                }
            }
        }
    }
    assert(prior + steps =~= with_table + steps.skip(1));
    lemma_has_column_grows(with_table, steps.skip(1), "lyrics", "song_id");
}

proof fn lemma_cover_art_refs(prior: Seq<StepView>)
    ensures
        forall|i: int|
            0 <= i < cover_art_steps().len() ==> step_refs_ok(
                prior + cover_art_steps().take(i),
                #[trigger] cover_art_steps()[i],
            ),
        has_column(prior + cover_art_steps(), "cover_art", "id"),
{
    let ghost steps = cover_art_steps();
    let ghost table = steps[0];
    let ghost with_table = prior.push(table);
    if let StepView::CreateTable(_, cols, _, _) = table {
        let ghost names = column_names(cols);
        assert(names[0] == "id");
        assert(names[1] == "item_type");
        assert(names[2] == "item_id");
        assert(names[3] == "mime_type");
        assert(names[4] == "width");
        assert(names[5] == "height");
        assert(names[6] == "file_path");
    }
    assert(with_table.drop_last() =~= prior);
    assert(has_column(with_table, "cover_art", "item_id"));
    assert(has_column(with_table, "cover_art", "item_type"));
    assert(has_column(with_table, "cover_art", "id"));
    assert(steps.take(0) =~= Seq::<StepView>::empty());
    assert(prior + steps.take(0) =~= prior);
    assert(step_refs_ok(prior, table));
    assert forall|i: int| 0 <= i < steps.len() implies step_refs_ok(
        prior + steps.take(i),
        #[trigger] steps[i],
    ) by {
        if i > 0 {
            assert(prior + steps.take(i) =~= with_table + steps.take(i).skip(1));
            if let StepView::CreateIndex(_, it, cs, _) = steps[i] {
                assert forall|k: int| 0 <= k < cs.len() implies has_column(
                    prior + steps.take(i),
                    it,
                    #[trigger] cs[k],
                ) by {
                    lemma_has_column_grows(with_table, steps.take(i).skip(1), it, cs[k]);
                }
            }
        }
    }
    assert(prior + steps =~= with_table + steps.skip(1));
    lemma_has_column_grows(with_table, steps.skip(1), "cover_art", "id");
}

/// Every step of the migration refers only to what exists when it runs:
/// each foreign key points to a column of a table made before it (or of the
/// users table), each key column is one of the table's own, and each index
/// covers columns of its table.
pub proof fn lemma_up_refs_resolve()
    ensures
        refs_resolve(up_plan()),
{
    let ghost p0 = user_columns_added();
    assert(refs_resolve(p0)) by {
        assert forall|i: int| 0 <= i < p0.len() implies step_refs_ok(p0.take(i), #[trigger] p0[i]) by {}
    }
    assert(has_column(Seq::<StepView>::empty(), "users", "id"));
    lemma_has_column_grows(Seq::<StepView>::empty(), p0, "users", "id");
    assert(Seq::<StepView>::empty() + p0 =~= p0);
    lemma_libraries_refs(p0);
    lemma_refs_append(p0, libraries_steps());
    let ghost p1 = p0 + libraries_steps();
    lemma_has_column_grows(p0, libraries_steps(), "users", "id");
    lemma_user_libraries_refs(p1);
    lemma_refs_append(p1, user_libraries_steps());
    let ghost p2 = p1 + user_libraries_steps();
    lemma_has_column_grows(p1, user_libraries_steps(), "users", "id");
    lemma_has_column_grows(p1, user_libraries_steps(), "libraries", "id");
    lemma_artists_refs(p2);
    lemma_refs_append(p2, artists_steps());
    let ghost p3 = p2 + artists_steps();
    lemma_has_column_grows(p2, artists_steps(), "users", "id");
    lemma_has_column_grows(p2, artists_steps(), "libraries", "id");
    lemma_has_column_grows(p2, artists_steps(), "user_libraries", "user_id");
    lemma_albums_refs(p3);
    lemma_refs_append(p3, albums_steps());
    let ghost p4 = p3 + albums_steps();
    lemma_has_column_grows(p3, albums_steps(), "users", "id");
    lemma_has_column_grows(p3, albums_steps(), "libraries", "id");
    lemma_has_column_grows(p3, albums_steps(), "user_libraries", "user_id");
    lemma_has_column_grows(p3, albums_steps(), "artists", "id");
    lemma_songs_refs(p4);
    lemma_refs_append(p4, songs_steps());
    let ghost p5 = p4 + songs_steps();
    lemma_has_column_grows(p4, songs_steps(), "users", "id");
    lemma_has_column_grows(p4, songs_steps(), "libraries", "id");
    lemma_has_column_grows(p4, songs_steps(), "user_libraries", "user_id");
    lemma_has_column_grows(p4, songs_steps(), "artists", "id");
    lemma_has_column_grows(p4, songs_steps(), "albums", "id");
    lemma_playlists_refs(p5);
    lemma_refs_append(p5, playlists_steps());
    let ghost p6 = p5 + playlists_steps();
    lemma_has_column_grows(p5, playlists_steps(), "users", "id");
    lemma_has_column_grows(p5, playlists_steps(), "libraries", "id");
    lemma_has_column_grows(p5, playlists_steps(), "user_libraries", "user_id");
    lemma_has_column_grows(p5, playlists_steps(), "artists", "id");
    lemma_has_column_grows(p5, playlists_steps(), "albums", "id");
    lemma_has_column_grows(p5, playlists_steps(), "songs", "id");
    lemma_playlist_songs_refs(p6);
    lemma_refs_append(p6, playlist_songs_steps());
    let ghost p7 = p6 + playlist_songs_steps();
    lemma_has_column_grows(p6, playlist_songs_steps(), "users", "id");
    lemma_has_column_grows(p6, playlist_songs_steps(), "libraries", "id");
    lemma_has_column_grows(p6, playlist_songs_steps(), "user_libraries", "user_id");
    lemma_has_column_grows(p6, playlist_songs_steps(), "artists", "id");
    lemma_has_column_grows(p6, playlist_songs_steps(), "albums", "id");
    lemma_has_column_grows(p6, playlist_songs_steps(), "songs", "id");
    lemma_has_column_grows(p6, playlist_songs_steps(), "playlists", "id");
    lemma_stars_refs(p7);
    lemma_refs_append(p7, stars_steps());
    let ghost p8 = p7 + stars_steps();
    lemma_has_column_grows(p7, stars_steps(), "users", "id");
    lemma_has_column_grows(p7, stars_steps(), "libraries", "id");
    lemma_has_column_grows(p7, stars_steps(), "user_libraries", "user_id");
    lemma_has_column_grows(p7, stars_steps(), "artists", "id");
    lemma_has_column_grows(p7, stars_steps(), "albums", "id");
    lemma_has_column_grows(p7, stars_steps(), "songs", "id");
    lemma_has_column_grows(p7, stars_steps(), "playlists", "id");
    lemma_has_column_grows(p7, stars_steps(), "playlist_songs", "playlist_id");
    lemma_ratings_refs(p8);
    lemma_refs_append(p8, ratings_steps());
    let ghost p9 = p8 + ratings_steps();
    lemma_has_column_grows(p8, ratings_steps(), "users", "id");
    lemma_has_column_grows(p8, ratings_steps(), "libraries", "id");
    lemma_has_column_grows(p8, ratings_steps(), "user_libraries", "user_id");
    lemma_has_column_grows(p8, ratings_steps(), "artists", "id");
    lemma_has_column_grows(p8, ratings_steps(), "albums", "id");
    lemma_has_column_grows(p8, ratings_steps(), "songs", "id");
    lemma_has_column_grows(p8, ratings_steps(), "playlists", "id");
    lemma_has_column_grows(p8, ratings_steps(), "playlist_songs", "playlist_id");
    lemma_has_column_grows(p8, ratings_steps(), "stars", "user_id");
    lemma_scrobbles_refs(p9);
    lemma_refs_append(p9, scrobbles_steps());
    let ghost p10 = p9 + scrobbles_steps();
    lemma_has_column_grows(p9, scrobbles_steps(), "users", "id");
    lemma_has_column_grows(p9, scrobbles_steps(), "libraries", "id");
    lemma_has_column_grows(p9, scrobbles_steps(), "user_libraries", "user_id");
    lemma_has_column_grows(p9, scrobbles_steps(), "artists", "id");
    lemma_has_column_grows(p9, scrobbles_steps(), "albums", "id");
    lemma_has_column_grows(p9, scrobbles_steps(), "songs", "id");
    lemma_has_column_grows(p9, scrobbles_steps(), "playlists", "id");
    lemma_has_column_grows(p9, scrobbles_steps(), "playlist_songs", "playlist_id");
    lemma_has_column_grows(p9, scrobbles_steps(), "stars", "user_id");
    lemma_has_column_grows(p9, scrobbles_steps(), "ratings", "user_id");
    lemma_bookmarks_refs(p10);
    lemma_refs_append(p10, bookmarks_steps());
    let ghost p11 = p10 + bookmarks_steps();
    lemma_has_column_grows(p10, bookmarks_steps(), "users", "id");
    lemma_has_column_grows(p10, bookmarks_steps(), "libraries", "id");
    lemma_has_column_grows(p10, bookmarks_steps(), "user_libraries", "user_id");
    lemma_has_column_grows(p10, bookmarks_steps(), "artists", "id");
    lemma_has_column_grows(p10, bookmarks_steps(), "albums", "id");
    lemma_has_column_grows(p10, bookmarks_steps(), "songs", "id");
    lemma_has_column_grows(p10, bookmarks_steps(), "playlists", "id");
    lemma_has_column_grows(p10, bookmarks_steps(), "playlist_songs", "playlist_id");
    lemma_has_column_grows(p10, bookmarks_steps(), "stars", "user_id");
    lemma_has_column_grows(p10, bookmarks_steps(), "ratings", "user_id");
    lemma_has_column_grows(p10, bookmarks_steps(), "scrobbles", "id");
    lemma_shares_refs(p11);
    lemma_refs_append(p11, shares_steps());
    let ghost p12 = p11 + shares_steps();
    lemma_has_column_grows(p11, shares_steps(), "users", "id");
    lemma_has_column_grows(p11, shares_steps(), "libraries", "id");
    lemma_has_column_grows(p11, shares_steps(), "user_libraries", "user_id");
    lemma_has_column_grows(p11, shares_steps(), "artists", "id");
    lemma_has_column_grows(p11, shares_steps(), "albums", "id");
    lemma_has_column_grows(p11, shares_steps(), "songs", "id");
    lemma_has_column_grows(p11, shares_steps(), "playlists", "id");
    lemma_has_column_grows(p11, shares_steps(), "playlist_songs", "playlist_id");
    lemma_has_column_grows(p11, shares_steps(), "stars", "user_id");
    lemma_has_column_grows(p11, shares_steps(), "ratings", "user_id");
    lemma_has_column_grows(p11, shares_steps(), "scrobbles", "id");
    lemma_has_column_grows(p11, shares_steps(), "bookmarks", "id");
    lemma_sessions_refs(p12);
    lemma_refs_append(p12, sessions_steps());
    let ghost p13 = p12 + sessions_steps();
    lemma_has_column_grows(p12, sessions_steps(), "users", "id");
    lemma_has_column_grows(p12, sessions_steps(), "libraries", "id");
    lemma_has_column_grows(p12, sessions_steps(), "user_libraries", "user_id");
    lemma_has_column_grows(p12, sessions_steps(), "artists", "id");
    lemma_has_column_grows(p12, sessions_steps(), "albums", "id");
    lemma_has_column_grows(p12, sessions_steps(), "songs", "id");
    lemma_has_column_grows(p12, sessions_steps(), "playlists", "id");
    lemma_has_column_grows(p12, sessions_steps(), "playlist_songs", "playlist_id");
    lemma_has_column_grows(p12, sessions_steps(), "stars", "user_id");
    lemma_has_column_grows(p12, sessions_steps(), "ratings", "user_id");
    lemma_has_column_grows(p12, sessions_steps(), "scrobbles", "id");
    lemma_has_column_grows(p12, sessions_steps(), "bookmarks", "id");
    lemma_has_column_grows(p12, sessions_steps(), "shares", "id");
    lemma_password_resets_refs(p13);
    lemma_refs_append(p13, password_resets_steps());
    let ghost p14 = p13 + password_resets_steps();
    lemma_has_column_grows(p13, password_resets_steps(), "users", "id");
    lemma_has_column_grows(p13, password_resets_steps(), "libraries", "id");
    lemma_has_column_grows(p13, password_resets_steps(), "user_libraries", "user_id");
    lemma_has_column_grows(p13, password_resets_steps(), "artists", "id");
    lemma_has_column_grows(p13, password_resets_steps(), "albums", "id");
    lemma_has_column_grows(p13, password_resets_steps(), "songs", "id");
    lemma_has_column_grows(p13, password_resets_steps(), "playlists", "id");
    lemma_has_column_grows(p13, password_resets_steps(), "playlist_songs", "playlist_id");
    lemma_has_column_grows(p13, password_resets_steps(), "stars", "user_id");
    lemma_has_column_grows(p13, password_resets_steps(), "ratings", "user_id");
    lemma_has_column_grows(p13, password_resets_steps(), "scrobbles", "id");
    lemma_has_column_grows(p13, password_resets_steps(), "bookmarks", "id");
    lemma_has_column_grows(p13, password_resets_steps(), "shares", "id");
    lemma_has_column_grows(p13, password_resets_steps(), "sessions", "id");
    lemma_scan_tasks_refs(p14);
    lemma_refs_append(p14, scan_tasks_steps());
    let ghost p15 = p14 + scan_tasks_steps();
    lemma_has_column_grows(p14, scan_tasks_steps(), "users", "id");
    lemma_has_column_grows(p14, scan_tasks_steps(), "libraries", "id");
    lemma_has_column_grows(p14, scan_tasks_steps(), "user_libraries", "user_id");
    lemma_has_column_grows(p14, scan_tasks_steps(), "artists", "id");
    lemma_has_column_grows(p14, scan_tasks_steps(), "albums", "id");
    lemma_has_column_grows(p14, scan_tasks_steps(), "songs", "id");
    lemma_has_column_grows(p14, scan_tasks_steps(), "playlists", "id");
    lemma_has_column_grows(p14, scan_tasks_steps(), "playlist_songs", "playlist_id");
    lemma_has_column_grows(p14, scan_tasks_steps(), "stars", "user_id");
    lemma_has_column_grows(p14, scan_tasks_steps(), "ratings", "user_id");
    lemma_has_column_grows(p14, scan_tasks_steps(), "scrobbles", "id");
    lemma_has_column_grows(p14, scan_tasks_steps(), "bookmarks", "id");
    lemma_has_column_grows(p14, scan_tasks_steps(), "shares", "id");
    lemma_has_column_grows(p14, scan_tasks_steps(), "sessions", "id");
    lemma_has_column_grows(p14, scan_tasks_steps(), "password_resets", "id");
    lemma_lyrics_refs(p15);
    lemma_refs_append(p15, lyrics_steps());
    let ghost p16 = p15 + lyrics_steps();
    lemma_has_column_grows(p15, lyrics_steps(), "users", "id");
    lemma_has_column_grows(p15, lyrics_steps(), "libraries", "id");
    lemma_has_column_grows(p15, lyrics_steps(), "user_libraries", "user_id");
    lemma_has_column_grows(p15, lyrics_steps(), "artists", "id");
    lemma_has_column_grows(p15, lyrics_steps(), "albums", "id");
    lemma_has_column_grows(p15, lyrics_steps(), "songs", "id");
    lemma_has_column_grows(p15, lyrics_steps(), "playlists", "id");
    lemma_has_column_grows(p15, lyrics_steps(), "playlist_songs", "playlist_id");
    lemma_has_column_grows(p15, lyrics_steps(), "stars", "user_id");
    lemma_has_column_grows(p15, lyrics_steps(), "ratings", "user_id");
    lemma_has_column_grows(p15, lyrics_steps(), "scrobbles", "id");
    lemma_has_column_grows(p15, lyrics_steps(), "bookmarks", "id");
    lemma_has_column_grows(p15, lyrics_steps(), "shares", "id");
    lemma_has_column_grows(p15, lyrics_steps(), "sessions", "id");
    lemma_has_column_grows(p15, lyrics_steps(), "password_resets", "id");
    lemma_has_column_grows(p15, lyrics_steps(), "scan_tasks", "id");
    lemma_cover_art_refs(p16);
    lemma_refs_append(p16, cover_art_steps());
    let ghost p17 = p16 + cover_art_steps();
    lemma_has_column_grows(p16, cover_art_steps(), "users", "id");
    lemma_has_column_grows(p16, cover_art_steps(), "libraries", "id");
    lemma_has_column_grows(p16, cover_art_steps(), "user_libraries", "user_id");
    lemma_has_column_grows(p16, cover_art_steps(), "artists", "id");
    lemma_has_column_grows(p16, cover_art_steps(), "albums", "id");
    lemma_has_column_grows(p16, cover_art_steps(), "songs", "id");
    lemma_has_column_grows(p16, cover_art_steps(), "playlists", "id");
    lemma_has_column_grows(p16, cover_art_steps(), "playlist_songs", "playlist_id");
    lemma_has_column_grows(p16, cover_art_steps(), "stars", "user_id");
    lemma_has_column_grows(p16, cover_art_steps(), "ratings", "user_id");
    lemma_has_column_grows(p16, cover_art_steps(), "scrobbles", "id");
    lemma_has_column_grows(p16, cover_art_steps(), "bookmarks", "id");
    lemma_has_column_grows(p16, cover_art_steps(), "shares", "id");
    lemma_has_column_grows(p16, cover_art_steps(), "sessions", "id");
    lemma_has_column_grows(p16, cover_art_steps(), "password_resets", "id");
    lemma_has_column_grows(p16, cover_art_steps(), "scan_tasks", "id");
    lemma_has_column_grows(p16, cover_art_steps(), "lyrics", "song_id");
    assert(p17 == up_plan());
}



// ---------------------------------------------------------------------------
// Keys and deletions
// ---------------------------------------------------------------------------

/// Whether a step makes `cols` a key of `table`: the table's primary key, a
/// single column declared unique, or a unique index.
pub open spec fn step_keys(s: StepView, table: &'static str, cols: Seq<&'static str>) -> bool {
    match s {
        StepView::CreateTable(t, columns, pk, _) => t == table && (pk == cols || (cols.len() == 1
            && exists|j: int|
            0 <= j < columns.len() && (#[trigger] columns[j]).name == cols[0] && columns[j].unique)),
        StepView::CreateIndex(_, t, c, u) => u && t == table && c == cols,
        _ => false,
    }
}

/// Whether a plan makes `cols` a key of `table`, so that the database
/// refuses two rows that agree on them.
pub open spec fn declares_key(plan: Seq<StepView>, table: &'static str, cols: Seq<&'static str>) -> bool {
    exists|i: int| 0 <= i < plan.len() && step_keys(#[trigger] plan[i], table, cols)
}

/// Whether a step makes the database apply `action` to the rows of `table`
/// whose `column` references a deleted row of `to_table`.
pub open spec fn step_on_delete(
    s: StepView,
    table: &'static str,
    column: &'static str,
    to_table: &'static str,
    action: OnDelete,
) -> bool {
    match s {
        StepView::CreateTable(t, _, _, fks) => t == table && exists|k: int|
            0 <= k < fks.len() && (#[trigger] fks[k]).column == column && fks[k].to_table == to_table
                && fks[k].on_delete == action,
        _ => false,
    }
}

/// Whether a plan makes the database apply `action` (delete them, or clear
/// the reference) to the rows of `table` whose `column` references a deleted
/// row of `to_table`.
pub open spec fn declares_on_delete(
    plan: Seq<StepView>,
    table: &'static str,
    column: &'static str,
    to_table: &'static str,
    action: OnDelete,
) -> bool {
    exists|i: int|
        0 <= i < plan.len() && step_on_delete(#[trigger] plan[i], table, column, to_table, action)
}

/// What one part of a plan declares, the whole plan declares.
proof fn lemma_declared_append(a: Seq<StepView>, b: Seq<StepView>)
    ensures
        forall|t: &'static str, c: Seq<&'static str>|
            #![trigger declares_key(a + b, t, c)]
            declares_key(a, t, c) || declares_key(b, t, c) ==> declares_key(a + b, t, c),
        forall|t: &'static str, c: &'static str, u: &'static str, x: OnDelete|
            #![trigger declares_on_delete(a + b, t, c, u, x)]
            declares_on_delete(a, t, c, u, x) || declares_on_delete(b, t, c, u, x)
                ==> declares_on_delete(a + b, t, c, u, x),
{
    assert forall|t: &'static str, c: Seq<&'static str>|
        declares_key(a, t, c) || declares_key(b, t, c) implies declares_key(a + b, t, c) by {
        if declares_key(a, t, c) {
            let i = choose|i: int| 0 <= i < a.len() && step_keys(#[trigger] a[i], t, c);
            assert((a + b)[i] == a[i]);
            assert(step_keys((a + b)[i], t, c));
        } else {
            let i = choose|i: int| 0 <= i < b.len() && step_keys(#[trigger] b[i], t, c);
            assert((a + b)[a.len() + i] == b[i]);
            assert(step_keys((a + b)[a.len() + i], t, c));
        }
    }
    assert forall|t: &'static str, c: &'static str, u: &'static str, x: OnDelete|
        declares_on_delete(a, t, c, u, x) || declares_on_delete(b, t, c, u, x)
            implies declares_on_delete(a + b, t, c, u, x) by {
        if declares_on_delete(a, t, c, u, x) {
            let i = choose|i: int| 0 <= i < a.len() && step_on_delete(#[trigger] a[i], t, c, u, x);
            assert((a + b)[i] == a[i]);
            assert(step_on_delete((a + b)[i], t, c, u, x));
        } else {
            let i = choose|i: int| 0 <= i < b.len() && step_on_delete(#[trigger] b[i], t, c, u, x);
            assert((a + b)[a.len() + i] == b[i]);
            assert(step_on_delete((a + b)[a.len() + i], t, c, u, x));
        }
    }
}

/// The keys and deletion rules each table's steps declare.
proof fn lemma_segment_keys()
    ensures
        declares_key(libraries_steps(), "libraries", seq!["path"]),
        declares_key(songs_steps(), "songs", seq!["file_path"]),
        declares_key(shares_steps(), "shares", seq!["token"]),
        declares_key(sessions_steps(), "sessions", seq!["token"]),
        declares_key(cover_art_steps(), "cover_art", seq!["item_type", "item_id"]),
        declares_key(stars_steps(), "stars", seq!["user_id", "item_type", "item_id"]),
        declares_key(ratings_steps(), "ratings", seq!["user_id", "item_type", "item_id"]),
        declares_key(playlist_songs_steps(), "playlist_songs", seq!["playlist_id", "song_id"]),
        declares_key(user_libraries_steps(), "user_libraries", seq!["user_id", "library_id"]),
        declares_on_delete(songs_steps(), "songs", "library_id", "libraries", OnDelete::Cascade),
        declares_on_delete(albums_steps(), "albums", "library_id", "libraries", OnDelete::Cascade),
        declares_on_delete(artists_steps(), "artists", "library_id", "libraries", OnDelete::Cascade),
        declares_on_delete(user_libraries_steps(), "user_libraries", "library_id", "libraries", OnDelete::Cascade),
        declares_on_delete(songs_steps(), "songs", "artist_id", "artists", OnDelete::Cascade),
        declares_on_delete(albums_steps(), "albums", "artist_id", "artists", OnDelete::Cascade),
        declares_on_delete(songs_steps(), "songs", "album_id", "albums", OnDelete::SetNull),
        declares_on_delete(scrobbles_steps(), "scrobbles", "song_id", "songs", OnDelete::Cascade),
        declares_on_delete(bookmarks_steps(), "bookmarks", "song_id", "songs", OnDelete::Cascade),
        declares_on_delete(playlist_songs_steps(), "playlist_songs", "song_id", "songs", OnDelete::Cascade),
        declares_on_delete(lyrics_steps(), "lyrics", "song_id", "songs", OnDelete::Cascade),
        declares_on_delete(playlist_songs_steps(), "playlist_songs", "playlist_id", "playlists", OnDelete::Cascade),
        declares_on_delete(user_libraries_steps(), "user_libraries", "user_id", "users", OnDelete::Cascade),
        declares_on_delete(stars_steps(), "stars", "user_id", "users", OnDelete::Cascade),
        declares_on_delete(ratings_steps(), "ratings", "user_id", "users", OnDelete::Cascade),
        declares_on_delete(scrobbles_steps(), "scrobbles", "user_id", "users", OnDelete::Cascade),
        declares_on_delete(bookmarks_steps(), "bookmarks", "user_id", "users", OnDelete::Cascade),
        declares_on_delete(shares_steps(), "shares", "owner_id", "users", OnDelete::Cascade),
        declares_on_delete(sessions_steps(), "sessions", "user_id", "users", OnDelete::Cascade),
        declares_on_delete(playlists_steps(), "playlists", "owner_id", "users", OnDelete::Cascade),
{
    match libraries_steps()[0] {
        StepView::CreateTable(_, columns, _, _) => {
            assert(columns[2].name == seq!["path"][0] && columns[2].unique);
        },
        _ => {},
    }
    assert(step_keys(libraries_steps()[0], "libraries", seq!["path"]));
    match songs_steps()[0] {
        StepView::CreateTable(_, columns, _, _) => {
            assert(columns[12].name == seq!["file_path"][0] && columns[12].unique);
        },
        _ => {},
    }
    assert(step_keys(songs_steps()[0], "songs", seq!["file_path"]));
    match shares_steps()[0] {
        StepView::CreateTable(_, columns, _, _) => {
            assert(columns[5].name == seq!["token"][0] && columns[5].unique);
        },
        _ => {},
    }
    assert(step_keys(shares_steps()[0], "shares", seq!["token"]));
    match sessions_steps()[0] {
        StepView::CreateTable(_, columns, _, _) => {
            assert(columns[2].name == seq!["token"][0] && columns[2].unique);
        },
        _ => {},
    }
    assert(step_keys(sessions_steps()[0], "sessions", seq!["token"]));
    assert(step_keys(cover_art_steps()[1], "cover_art", seq!["item_type", "item_id"]));
    assert(step_keys(stars_steps()[0], "stars", seq!["user_id", "item_type", "item_id"]));
    assert(step_keys(ratings_steps()[0], "ratings", seq!["user_id", "item_type", "item_id"]));
    assert(step_keys(playlist_songs_steps()[0], "playlist_songs", seq!["playlist_id", "song_id"]));
    assert(step_keys(user_libraries_steps()[0], "user_libraries", seq!["user_id", "library_id"]));
    match songs_steps()[0] {
        StepView::CreateTable(_, _, _, fks) => {
            assert(fks[2].column == "library_id" && fks[2].to_table == "libraries");
        },
        _ => {},
    }
    assert(step_on_delete(songs_steps()[0], "songs", "library_id", "libraries", OnDelete::Cascade));
    match albums_steps()[0] {
        StepView::CreateTable(_, _, _, fks) => {
            assert(fks[1].column == "library_id" && fks[1].to_table == "libraries");
        },
        _ => {},
    }
    assert(step_on_delete(albums_steps()[0], "albums", "library_id", "libraries", OnDelete::Cascade));
    match artists_steps()[0] {
        StepView::CreateTable(_, _, _, fks) => {
            assert(fks[0].column == "library_id" && fks[0].to_table == "libraries");
        },
        _ => {},
    }
    assert(step_on_delete(artists_steps()[0], "artists", "library_id", "libraries", OnDelete::Cascade));
    match user_libraries_steps()[0] {
        StepView::CreateTable(_, _, _, fks) => {
            assert(fks[1].column == "library_id" && fks[1].to_table == "libraries");
        },
        _ => {},
    }
    assert(step_on_delete(user_libraries_steps()[0], "user_libraries", "library_id", "libraries", OnDelete::Cascade));
    match songs_steps()[0] {
        StepView::CreateTable(_, _, _, fks) => {
            assert(fks[0].column == "artist_id" && fks[0].to_table == "artists");
        },
        _ => {},
    }
    assert(step_on_delete(songs_steps()[0], "songs", "artist_id", "artists", OnDelete::Cascade));
    match albums_steps()[0] {
        StepView::CreateTable(_, _, _, fks) => {
            assert(fks[0].column == "artist_id" && fks[0].to_table == "artists");
        },
        _ => {},
    }
    assert(step_on_delete(albums_steps()[0], "albums", "artist_id", "artists", OnDelete::Cascade));
    match songs_steps()[0] {
        StepView::CreateTable(_, _, _, fks) => {
            assert(fks[1].column == "album_id" && fks[1].to_table == "albums");
        },
        _ => {},
    }
    assert(step_on_delete(songs_steps()[0], "songs", "album_id", "albums", OnDelete::SetNull));
    match scrobbles_steps()[0] {
        StepView::CreateTable(_, _, _, fks) => {
            assert(fks[1].column == "song_id" && fks[1].to_table == "songs");
        },
        _ => {},
    }
    assert(step_on_delete(scrobbles_steps()[0], "scrobbles", "song_id", "songs", OnDelete::Cascade));
    match bookmarks_steps()[0] {
        StepView::CreateTable(_, _, _, fks) => {
            assert(fks[1].column == "song_id" && fks[1].to_table == "songs");
        },
        _ => {},
    }
    assert(step_on_delete(bookmarks_steps()[0], "bookmarks", "song_id", "songs", OnDelete::Cascade));
    match playlist_songs_steps()[0] {
        StepView::CreateTable(_, _, _, fks) => {
            assert(fks[1].column == "song_id" && fks[1].to_table == "songs");
        },
        _ => {},
    }
    assert(step_on_delete(playlist_songs_steps()[0], "playlist_songs", "song_id", "songs", OnDelete::Cascade));
    match lyrics_steps()[0] {
        StepView::CreateTable(_, _, _, fks) => {
            assert(fks[0].column == "song_id" && fks[0].to_table == "songs");
        },
        _ => {},
    }
    assert(step_on_delete(lyrics_steps()[0], "lyrics", "song_id", "songs", OnDelete::Cascade));
    match playlist_songs_steps()[0] {
        StepView::CreateTable(_, _, _, fks) => {
            assert(fks[0].column == "playlist_id" && fks[0].to_table == "playlists");
        },
        _ => {},
    }
    assert(step_on_delete(playlist_songs_steps()[0], "playlist_songs", "playlist_id", "playlists", OnDelete::Cascade));
    match user_libraries_steps()[0] {
        StepView::CreateTable(_, _, _, fks) => {
            assert(fks[0].column == "user_id" && fks[0].to_table == "users");
        },
        _ => {},
    }
    assert(step_on_delete(user_libraries_steps()[0], "user_libraries", "user_id", "users", OnDelete::Cascade));
    match stars_steps()[0] {
        StepView::CreateTable(_, _, _, fks) => {
            assert(fks[0].column == "user_id" && fks[0].to_table == "users");
        },
        _ => {},
    }
    assert(step_on_delete(stars_steps()[0], "stars", "user_id", "users", OnDelete::Cascade));
    match ratings_steps()[0] {
        StepView::CreateTable(_, _, _, fks) => {
            assert(fks[0].column == "user_id" && fks[0].to_table == "users");
        },
        _ => {},
    }
    assert(step_on_delete(ratings_steps()[0], "ratings", "user_id", "users", OnDelete::Cascade));
    match scrobbles_steps()[0] {
        StepView::CreateTable(_, _, _, fks) => {
            assert(fks[0].column == "user_id" && fks[0].to_table == "users");
        },
        _ => {},
    }
    assert(step_on_delete(scrobbles_steps()[0], "scrobbles", "user_id", "users", OnDelete::Cascade));
    match bookmarks_steps()[0] {
        StepView::CreateTable(_, _, _, fks) => {
            assert(fks[0].column == "user_id" && fks[0].to_table == "users");
        },
        _ => {},
    }
    assert(step_on_delete(bookmarks_steps()[0], "bookmarks", "user_id", "users", OnDelete::Cascade));
    match shares_steps()[0] {
        StepView::CreateTable(_, _, _, fks) => {
            assert(fks[0].column == "owner_id" && fks[0].to_table == "users");
        },
        _ => {},
    }
    assert(step_on_delete(shares_steps()[0], "shares", "owner_id", "users", OnDelete::Cascade));
    match sessions_steps()[0] {
        StepView::CreateTable(_, _, _, fks) => {
            assert(fks[0].column == "user_id" && fks[0].to_table == "users");
        },
        _ => {},
    }
    assert(step_on_delete(sessions_steps()[0], "sessions", "user_id", "users", OnDelete::Cascade));
    match playlists_steps()[0] {
        StepView::CreateTable(_, _, _, fks) => {
            assert(fks[0].column == "owner_id" && fks[0].to_table == "users");
        },
        _ => {},
    }
    assert(step_on_delete(playlists_steps()[0], "playlists", "owner_id", "users", OnDelete::Cascade));
}

/// The installed schema refuses duplicates where the server relies on there
/// being none: library paths, song file paths, share and session tokens,
/// one cover per item, one star and one rating per user and item, one entry
/// per song in a playlist, one setting per user and library. Deleting a row
/// takes its dependants with it: a library its songs, albums, artists and
/// user settings; an artist its songs and albums; a song its scrobbles,
/// bookmarks, playlist entries and lyrics; a playlist its entries; a user
/// their library settings, stars, ratings, scrobbles, bookmarks, shares,
/// sessions and playlists. Deleting an album leaves its songs without an
/// album.
pub proof fn lemma_up_keys_and_cascades()
    ensures
        declares_key(up_plan(), "libraries", seq!["path"]),
        declares_key(up_plan(), "songs", seq!["file_path"]),
        declares_key(up_plan(), "shares", seq!["token"]),
        declares_key(up_plan(), "sessions", seq!["token"]),
        declares_key(up_plan(), "cover_art", seq!["item_type", "item_id"]),
        declares_key(up_plan(), "stars", seq!["user_id", "item_type", "item_id"]),
        declares_key(up_plan(), "ratings", seq!["user_id", "item_type", "item_id"]),
        declares_key(up_plan(), "playlist_songs", seq!["playlist_id", "song_id"]),
        declares_key(up_plan(), "user_libraries", seq!["user_id", "library_id"]),
        declares_on_delete(up_plan(), "songs", "library_id", "libraries", OnDelete::Cascade),
        declares_on_delete(up_plan(), "albums", "library_id", "libraries", OnDelete::Cascade),
        declares_on_delete(up_plan(), "artists", "library_id", "libraries", OnDelete::Cascade),
        declares_on_delete(up_plan(), "user_libraries", "library_id", "libraries", OnDelete::Cascade),
        declares_on_delete(up_plan(), "songs", "artist_id", "artists", OnDelete::Cascade),
        declares_on_delete(up_plan(), "albums", "artist_id", "artists", OnDelete::Cascade),
        declares_on_delete(up_plan(), "songs", "album_id", "albums", OnDelete::SetNull),
        declares_on_delete(up_plan(), "scrobbles", "song_id", "songs", OnDelete::Cascade),
        declares_on_delete(up_plan(), "bookmarks", "song_id", "songs", OnDelete::Cascade),
        declares_on_delete(up_plan(), "playlist_songs", "song_id", "songs", OnDelete::Cascade),
        declares_on_delete(up_plan(), "lyrics", "song_id", "songs", OnDelete::Cascade),
        declares_on_delete(up_plan(), "playlist_songs", "playlist_id", "playlists", OnDelete::Cascade),
        declares_on_delete(up_plan(), "user_libraries", "user_id", "users", OnDelete::Cascade),
        declares_on_delete(up_plan(), "stars", "user_id", "users", OnDelete::Cascade),
        declares_on_delete(up_plan(), "ratings", "user_id", "users", OnDelete::Cascade),
        declares_on_delete(up_plan(), "scrobbles", "user_id", "users", OnDelete::Cascade),
        declares_on_delete(up_plan(), "bookmarks", "user_id", "users", OnDelete::Cascade),
        declares_on_delete(up_plan(), "shares", "owner_id", "users", OnDelete::Cascade),
        declares_on_delete(up_plan(), "sessions", "user_id", "users", OnDelete::Cascade),
        declares_on_delete(up_plan(), "playlists", "owner_id", "users", OnDelete::Cascade),
{
    lemma_segment_keys();
    let ghost q0 = user_columns_added();
    lemma_declared_append(q0, libraries_steps());
    let ghost q1 = q0 + libraries_steps();
    lemma_declared_append(q1, user_libraries_steps());
    let ghost q2 = q1 + user_libraries_steps();
    lemma_declared_append(q2, artists_steps());
    let ghost q3 = q2 + artists_steps();
    lemma_declared_append(q3, albums_steps());
    let ghost q4 = q3 + albums_steps();
    lemma_declared_append(q4, songs_steps());
    let ghost q5 = q4 + songs_steps();
    lemma_declared_append(q5, playlists_steps());
    let ghost q6 = q5 + playlists_steps();
    lemma_declared_append(q6, playlist_songs_steps());
    let ghost q7 = q6 + playlist_songs_steps();
    lemma_declared_append(q7, stars_steps());
    let ghost q8 = q7 + stars_steps();
    lemma_declared_append(q8, ratings_steps());
    let ghost q9 = q8 + ratings_steps();
    lemma_declared_append(q9, scrobbles_steps());
    let ghost q10 = q9 + scrobbles_steps();
    lemma_declared_append(q10, bookmarks_steps());
    let ghost q11 = q10 + bookmarks_steps();
    lemma_declared_append(q11, shares_steps());
    let ghost q12 = q11 + shares_steps();
    lemma_declared_append(q12, sessions_steps());
    let ghost q13 = q12 + sessions_steps();
    lemma_declared_append(q13, password_resets_steps());
    let ghost q14 = q13 + password_resets_steps();
    lemma_declared_append(q14, scan_tasks_steps());
    let ghost q15 = q14 + scan_tasks_steps();
    lemma_declared_append(q15, lyrics_steps());
    let ghost q16 = q15 + lyrics_steps();
    lemma_declared_append(q16, cover_art_steps());
    let ghost q17 = q16 + cover_art_steps();
    assert(q17 == up_plan());
}

} // verus!
