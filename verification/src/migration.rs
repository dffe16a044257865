//! The migration that turns the text identifier columns into UUID columns.
//!
//! On SQLite each listed column is rewritten to `uuid_text` (after the
//! foreign keys that would block the rewrite are dropped); on Postgres one
//! script alters the column types. The functions here decide what to run;
//! running it against a connection is left to the caller.

use vstd::prelude::*;
use vstd::string::*;

verus! {

/// The database a migration runs against.
#[derive(PartialEq, Eq, Structural, Clone, Copy, Debug)]
pub enum DatabaseBackend {
    MySql,
    Postgres,
    Sqlite,
}

/// A table, a column, whether the column is unique, and whether a full
/// table copy of it leaves the primary key undeclared.
pub type ColumnEntry = (&'static str, &'static str, bool, bool);

/// The SQLite columns that hold identifiers as text, in rewrite order.
/// A unique column is rewritten by a full table copy, which declares the
/// primary key again unless the entry says to skip it: that is done for the
/// tables whose key spans two columns, since a key declared on each of two
/// columns makes SQLite refuse the new table.
pub const SQLITE_TEXT_UUID_COLUMNS: [ColumnEntry; 84] = [
    ("users", "id", false, false),
    ("libraries", "id", false, false),
    ("series", "id", false, false),
    ("series", "library_id", false, false),
    ("media", "series_id", false, false),
    ("media", "id", false, false),
    ("jobs", "id", false, false),
    ("age_restrictions", "user_id", true, false),
    ("api_keys", "user_id", true, false),
    ("book_club_book_suggestion_likes", "liked_by_id", false, false),
    ("book_club_book_suggestion_likes", "suggestion_id", false, false),
    ("book_club_book_suggestions", "id", false, false),
    ("book_club_book_suggestions", "resolved_by_id", false, false),
    ("book_club_book_suggestions", "suggested_by_id", false, false),
    ("book_club_book_suggestions", "book_id", false, false),
    ("book_club_book_suggestions", "book_club_id", false, false),
    ("book_club_books", "id", false, false),
    ("book_club_books", "book_club_id", false, false),
    ("book_club_books", "book_entity_id", false, false),
    ("book_club_discussion_message_reactions", "id", false, false),
    ("book_club_discussion_message_reactions", "member_id", false, false),
    ("book_club_discussion_message_reactions", "message_id", false, false),
    ("book_club_discussion_message", "id", false, false),
    ("book_club_discussion_message", "parent_message_id", false, false),
    ("book_club_discussion_message", "reply_to_message_id", false, false),
    ("book_club_discussion_message", "discussion_id", false, false),
    ("book_club_discussion_message", "book_club_id", false, false),
    ("book_club_discussions", "id", false, false),
    ("book_club_discussions", "book_club_book_id", false, false),
    ("book_club_discussions", "book_club_id", false, false),
    ("book_club_invitations", "id", false, false),
    ("book_club_invitations", "book_club_id", false, false),
    ("book_club_invitations", "user_id", false, false),
    ("book_club_member_favorite_books", "id", false, false),
    ("book_club_member_favorite_books", "member_id", false, false),
    ("book_club_member_favorite_books", "book_id", false, false),
    ("book_club_members", "id", false, false),
    ("book_club_members", "user_id", false, false),
    ("book_club_members", "book_club_id", false, false),
    ("book_clubs", "id", false, false),
    ("bookmarks", "id", false, false),
    ("bookmarks", "media_id", false, false),
    ("bookmarks", "user_id", false, false),
    ("custom_emojis", "created_by_id", false, false),
    ("emailer_send_records", "sent_by_user_id", false, false),
    ("favorite_libraries", "library_id", true, true),
    ("favorite_libraries", "user_id", true, true),
    ("scheduled_job_libraries", "library_id", false, false),
    ("favorite_media", "user_id", true, true),
    ("favorite_media", "media_id", true, true),
    ("favorite_series", "user_id", true, true),
    ("favorite_series", "series_id", true, true),
    ("finished_reading_sessions", "user_id", true, false),
    ("finished_reading_sessions", "media_id", true, false),
    ("last_library_visits", "user_id", false, false),
    ("last_library_visits", "library_id", false, false),
    ("library_configs", "library_id", false, false),
    ("library_exclusions", "user_id", true, false),
    ("library_exclusions", "library_id", true, false),
    ("library_scan_records", "library_id", false, false),
    ("library_tags", "library_id", false, false),
    ("logs", "job_id", false, false),
    ("media_analysis", "media_id", true, false),
    ("media_annotations", "id", false, false),
    ("media_annotations", "media_id", false, false),
    ("media_annotations", "user_id", false, false),
    ("media_metadata", "media_id", true, false),
    ("media_tags", "media_id", true, false),
    ("reading_sessions", "media_id", false, false),
    ("reading_sessions", "user_id", false, false),
    ("reading_sessions", "device_id", false, false),
    ("refresh_tokens", "user_id", false, false),
    ("series_metadata", "series_id", true, false),
    ("series_tags", "series_id", true, false),
    ("sessions", "user_id", true, false),
    ("smart_list_access_rules", "user_id", true, false),
    ("smart_list_access_rules", "smart_list_id", false, false),
    ("smart_list_views", "list_id", true, false),
    ("smart_lists", "id", true, false),
    ("smart_lists", "creator_id", false, false),
    ("user_login_activity", "user_id", true, false),
    ("user_preferences", "user_id", true, false),
    ("book_club_discussion_message", "member_id", false, false),
    ("library_scan_records", "job_id", false, false),
];

/// The SQLite tables whose foreign keys are dropped before the rewrite.
pub const SQLITE_FOREIGN_KEY_TABLES: [&'static str; 12] = [
    "book_club_discussion_message",
    "book_club_book_suggestion_likes",
    "scheduled_job_libraries",
    "library_tags",
    "library_scan_records",
    "custom_emojis",
    "logs",
    "media",
    "emailer_send_records",
    "last_library_visits",
    "reading_sessions",
    "refresh_tokens",
];

/// The Postgres columns that the up script converts to `UUID`, in script
/// order.
pub const POSTGRES_UUID_COLUMNS: [(&'static str, &'static str); 85] = [
    ("users", "id"),
    ("libraries", "id"),
    ("series", "id"),
    ("series", "library_id"),
    ("media", "series_id"),
    ("media", "id"),
    ("jobs", "id"),
    ("age_restrictions", "user_id"),
    ("api_keys", "user_id"),
    ("book_club_book_suggestion_likes", "liked_by_id"),
    ("book_club_book_suggestion_likes", "suggestion_id"),
    ("book_club_book_suggestions", "id"),
    ("book_club_book_suggestions", "resolved_by_id"),
    ("book_club_book_suggestions", "suggested_by_id"),
    ("book_club_book_suggestions", "book_id"),
    ("book_club_book_suggestions", "book_club_id"),
    ("book_club_books", "id"),
    ("book_club_books", "book_club_id"),
    ("book_club_books", "book_entity_id"),
    ("book_club_discussion_message_reactions", "id"),
    ("book_club_discussion_message_reactions", "member_id"),
    ("book_club_discussion_message_reactions", "message_id"),
    ("book_club_discussion_message", "id"),
    ("book_club_discussion_message", "parent_message_id"),
    ("book_club_discussion_message", "reply_to_message_id"),
    ("book_club_discussion_message", "discussion_id"),
    ("book_club_discussion_message", "book_club_id"),
    ("book_club_discussions", "id"),
    ("book_club_discussions", "book_club_book_id"),
    ("book_club_discussions", "book_club_id"),
    ("book_club_invitations", "id"),
    ("book_club_invitations", "book_club_id"),
    ("book_club_invitations", "user_id"),
    ("book_club_member_favorite_books", "id"),
    ("book_club_member_favorite_books", "member_id"),
    ("book_club_member_favorite_books", "book_id"),
    ("book_club_members", "id"),
    ("book_club_members", "user_id"),
    ("book_club_members", "book_club_id"),
    ("book_clubs", "id"),
    ("bookmarks", "id"),
    ("bookmarks", "media_id"),
    ("bookmarks", "user_id"),
    ("custom_emojis", "created_by_id"),
    ("emailer_send_records", "sent_by_user_id"),
    ("favorite_libraries", "library_id"),
    ("favorite_libraries", "user_id"),
    ("scheduled_job_libraries", "library_id"),
    ("favorite_media", "user_id"),
    ("favorite_media", "media_id"),
    ("favorite_series", "user_id"),
    ("favorite_series", "series_id"),
    ("finished_reading_sessions", "user_id"),
    ("finished_reading_sessions", "media_id"),
    ("last_library_visits", "user_id"),
    ("last_library_visits", "library_id"),
    ("library_configs", "library_id"),
    ("library_exclusions", "user_id"),
    ("library_exclusions", "library_id"),
    ("library_scan_records", "library_id"),
    ("library_tags", "library_id"),
    ("logs", "job_id"),
    ("media_analysis", "media_id"),
    ("media_annotations", "id"),
    ("media_annotations", "media_id"),
    ("media_annotations", "user_id"),
    ("media_metadata", "media_id"),
    ("media_tags", "media_id"),
    ("reading_sessions", "media_id"),
    ("reading_sessions", "user_id"),
    ("reading_sessions", "device_id"),
    ("refresh_tokens", "user_id"),
    ("registered_reading_devices", "id"),
    ("series_metadata", "series_id"),
    ("series_tags", "series_id"),
    ("sessions", "user_id"),
    ("smart_list_access_rules", "user_id"),
    ("smart_list_access_rules", "smart_list_id"),
    ("smart_list_views", "list_id"),
    ("smart_lists", "id"),
    ("smart_lists", "creator_id"),
    ("user_login_activity", "user_id"),
    ("user_preferences", "user_id"),
    ("book_club_discussion_message", "member_id"),
    ("library_scan_records", "job_id"),
];

/// The columns that the Postgres down script converts back to `TEXT`, in
/// script order, each given by its position in [`POSTGRES_UUID_COLUMNS`].
/// `book_club_book_suggestions.resolved_by_id`,
/// `scheduled_job_libraries.library_id` and `registered_reading_devices.id`
/// are not among them: the down script leaves them `UUID`.
pub const POSTGRES_REVERT_ORDER: [usize; 82] = [
    7, 8, 9, 10, 11, 13, 14, 15, 16, 17, 18, 19, 20, 21, 22, 23, 24, 25, 26, 27, 28, 29, 30, 31,
    32, 33, 34, 35, 36, 37, 38, 39, 40, 41, 42, 43, 44, 46, 45, 48, 49, 50, 51, 52, 53, 6, 54,
    55, 56, 57, 58, 59, 60, 1, 61, 62, 63, 64, 65, 66, 67, 5, 4, 68, 69, 70, 71, 73, 74, 2, 3,
    75, 76, 77, 78, 79, 80, 81, 82, 0, 83, 84,
];

/// The action that converts one SQLite column: unique columns by a full
/// table copy, the others in place.
pub open spec fn up_action(e: (Seq<char>, Seq<char>, bool, bool)) -> ActionSpec {
    if e.2 {
        ActionSpec::AlterColumnTypeFullCopy(e.0, e.1, e.2, e.3)
    } else {
        ActionSpec::AlterColumnType(e.0, e.1, e.2)
    }
}

/// The action that reverts one SQLite column: every column in place.
pub open spec fn down_action(e: (Seq<char>, Seq<char>, bool, bool)) -> ActionSpec {
    ActionSpec::RevertColumnType(e.0, e.1, e.2)
}

/// One action of the migration, run in order.
#[derive(Debug, PartialEq, Eq)]
pub enum MigrationAction {
    /// Rebuild the table without its foreign keys.
    DropForeignKeys(String),
    /// Rewrite the column to `uuid_text` in place (table, column, unique).
    AlterColumnType(String, String, bool),
    /// Rewrite the column to `uuid_text` by a full table copy
    /// (table, column, unique, skip the primary key).
    AlterColumnTypeFullCopy(String, String, bool, bool),
    /// Rewrite the column back to `TEXT` in place (table, column, unique).
    RevertColumnType(String, String, bool),
    /// Run the script.
    ExecuteSql(String),
}

/// The mathematical value of a [`MigrationAction`].
pub enum ActionSpec {
    DropForeignKeys(Seq<char>),
    AlterColumnType(Seq<char>, Seq<char>, bool),
    AlterColumnTypeFullCopy(Seq<char>, Seq<char>, bool, bool),
    RevertColumnType(Seq<char>, Seq<char>, bool),
    ExecuteSql(Seq<char>),
}

impl View for MigrationAction {
    type V = ActionSpec;

    open spec fn view(&self) -> ActionSpec {
        match self {
            MigrationAction::DropForeignKeys(t) => ActionSpec::DropForeignKeys(t@),
            MigrationAction::AlterColumnType(t, c, u) => ActionSpec::AlterColumnType(t@, c@, *u),
            MigrationAction::AlterColumnTypeFullCopy(t, c, u, k) =>
                ActionSpec::AlterColumnTypeFullCopy(t@, c@, *u, *k),
            MigrationAction::RevertColumnType(t, c, u) => ActionSpec::RevertColumnType(t@, c@, *u),
            MigrationAction::ExecuteSql(s) => ActionSpec::ExecuteSql(s@),
        }
    }
}

/// The actions as mathematical values.
pub open spec fn actions_view(actions: Seq<MigrationAction>) -> Seq<ActionSpec> {
    actions.map_values(|a: MigrationAction| a@)
}

/// A column entry as mathematical values.
pub open spec fn entry_view(e: ColumnEntry) -> (Seq<char>, Seq<char>, bool, bool) {
    (e.0@, e.1@, e.2, e.3)
}

/// The SQLite up migration: drop the foreign keys of each table, then
/// convert each column in list order.
pub open spec fn sqlite_up_spec(
    fk_tables: Seq<Seq<char>>,
    columns: Seq<(Seq<char>, Seq<char>, bool, bool)>,
) -> Seq<ActionSpec> {
    fk_tables.map_values(|t: Seq<char>| ActionSpec::DropForeignKeys(t)) + columns.map_values(
        |e: (Seq<char>, Seq<char>, bool, bool)| up_action(e),
    )
}

/// The SQLite down migration: revert each column in list order.
pub open spec fn sqlite_down_spec(columns: Seq<(Seq<char>, Seq<char>, bool, bool)>) -> Seq<ActionSpec> {
    columns.map_values(|e: (Seq<char>, Seq<char>, bool, bool)| down_action(e))
}

/// The SQLite actions of the up migration.
pub fn sqlite_up_actions(fk_tables: &[&str], columns: &[ColumnEntry]) -> (r: Vec<
    MigrationAction,
>)
    ensures
        actions_view(r@) == sqlite_up_spec(
            fk_tables@.map_values(|t: &str| t@),
            columns@.map_values(|e: ColumnEntry| entry_view(e)),
        ),
{
    let ghost fk = fk_tables@.map_values(|t: &str| t@);
    let ghost cs = columns@.map_values(|e: ColumnEntry| entry_view(e));
    let ghost want = sqlite_up_spec(fk, cs);
    let mut out: Vec<MigrationAction> = Vec::new();
    let mut i: usize = 0;
    while i < fk_tables.len()
        invariant
            fk == fk_tables@.map_values(|t: &str| t@),
            want == sqlite_up_spec(fk, cs),
            i <= fk_tables.len(),
            actions_view(out@) =~= want.take(i as int),
        decreases fk_tables.len() - i,
    {
        let ghost before = actions_view(out@);
        out.push(MigrationAction::DropForeignKeys(String::from_str(fk_tables[i])));
        assert(actions_view(out@) =~= before.push(want[i as int]));
        assert(want.take(i + 1) =~= want.take(i as int).push(want[i as int]));
        i += 1;
    }
    let n = fk_tables.len();
    let mut j: usize = 0;
    while j < columns.len()
        invariant
            cs == columns@.map_values(|e: ColumnEntry| entry_view(e)),
            want == sqlite_up_spec(fk, cs),
            n == fk.len(),
            j <= columns.len(),
            actions_view(out@) =~= want.take(n + j),
        decreases columns.len() - j,
    {
        let ghost before = actions_view(out@);
        let (table, column, unique, skip_pk) = columns[j];
        if unique {
            out.push(
                MigrationAction::AlterColumnTypeFullCopy(
                    String::from_str(table),
                    String::from_str(column),
                    unique,
                    skip_pk,
                ),
            );
        } else {
            out.push(
                MigrationAction::AlterColumnType(
                    String::from_str(table),
                    String::from_str(column),
                    unique,
                ),
            );
        }
        assert(want[n + j] == up_action(cs[j as int]));
        assert(actions_view(out@) =~= before.push(want[n + j]));
        assert(want.take(n + j + 1) =~= want.take(n + j).push(want[n + j]));
        j += 1;
    }
    assert(want.take(n + columns.len()) =~= want);
    out
}

/// The SQLite actions of the down migration.
pub fn sqlite_down_actions(columns: &[ColumnEntry]) -> (r: Vec<MigrationAction>)
    ensures
        actions_view(r@) == sqlite_down_spec(columns@.map_values(|e: ColumnEntry| entry_view(e))),
{
    let ghost cs = columns@.map_values(|e: ColumnEntry| entry_view(e));
    let ghost want = sqlite_down_spec(cs);
    let mut out: Vec<MigrationAction> = Vec::new();
    let mut j: usize = 0;
    while j < columns.len()
        invariant
            cs == columns@.map_values(|e: ColumnEntry| entry_view(e)),
            want == sqlite_down_spec(cs),
            j <= columns.len(),
            actions_view(out@) =~= want.take(j as int),
        decreases columns.len() - j,
    {
        let ghost before = actions_view(out@);
        let (table, column, unique, _) = columns[j];
        out.push(
            MigrationAction::RevertColumnType(
                String::from_str(table),
                String::from_str(column),
                unique,
            ),
        );
        assert(actions_view(out@) =~= before.push(want[j as int]));
        assert(want.take(j + 1) =~= want.take(j as int).push(want[j as int]));
        j += 1;
    }
    assert(want.take(columns.len() as int) =~= want);
    out
}

/// The lines of a script, one after the other.
pub open spec fn concat_lines(lines: Seq<Seq<char>>) -> Seq<char>
    decreases lines.len(),
{
    if lines.len() == 0 {
        seq![]
    } else {
        concat_lines(lines.drop_last()) + lines.last()
    }
}

/// The Postgres line that converts a column to `UUID`.
pub open spec fn pg_up_line(table: Seq<char>, column: Seq<char>) -> Seq<char> {
    "\t\t\t\tALTER TABLE \""@ + table + "\" ALTER COLUMN \""@ + column + "\" TYPE UUID USING \""@
        + column + "\"::uuid;\n"@
}

/// The Postgres line that converts a column back to `TEXT`.
pub open spec fn pg_down_line(table: Seq<char>, column: Seq<char>) -> Seq<char> {
    "\t\t\t\tALTER TABLE \""@ + table + "\" ALTER COLUMN \""@ + column + "\" TYPE TEXT;\n"@
}

/// The Postgres up script: drop the two foreign keys that block the type
/// change, then convert each column.
pub open spec fn pg_up_script(columns: Seq<(Seq<char>, Seq<char>)>) -> Seq<char> {
    "\n\t\t\t\tALTER TABLE \"book_club_book_suggestion_likes\" DROP CONSTRAINT IF EXISTS \"FK_book_club_book_suggestion_likes_book_club_book_suggestions\";\n\t\t\t\tALTER TABLE \"finished_reading_sessions\" DROP CONSTRAINT IF EXISTS \"fk-finished_reading_sessions-device\";\n"@
        + concat_lines(
        columns.map_values(|e: (Seq<char>, Seq<char>)| pg_up_line(e.0, e.1)),
    ) + "\t\t\t"@
}

/// The Postgres down line of the column at a position of the list (none
/// when the position is outside it).
pub open spec fn pg_revert_line(columns: Seq<(Seq<char>, Seq<char>)>, k: int) -> Seq<char> {
    if 0 <= k < columns.len() {
        pg_down_line(columns[k].0, columns[k].1)
    } else {
        seq![]
    }
}

/// The Postgres down script: convert the columns at the given positions
/// back, in the given order, then restore the suggestion-likes foreign key.
pub open spec fn pg_down_script(columns: Seq<(Seq<char>, Seq<char>)>, order: Seq<usize>) -> Seq<
    char,
> {
    "\n"@ + concat_lines(order.map_values(|k: usize| pg_revert_line(columns, k as int)))
        + "\t\t\t\tALTER TABLE \"book_club_book_suggestion_likes\" ADD CONSTRAINT \"FK_book_club_book_suggestion_likes_book_club_book_suggestions\" FOREIGN KEY (\"suggestion_id\") REFERENCES \"book_club_book_suggestions\"(\"id\");\n\t\t\t"@
}

/// A Postgres column list as mathematical values.
pub open spec fn pg_columns_view(columns: Seq<(&str, &str)>) -> Seq<(Seq<char>, Seq<char>)> {
    columns.map_values(|e: (&str, &str)| (e.0@, e.1@))
}

/// Builds the Postgres up script for a column list.
pub fn postgres_up_sql(columns: &[(&str, &str)]) -> (r: String)
    ensures
        r@ == pg_up_script(pg_columns_view(columns@)),
{
    let ghost cv = pg_columns_view(columns@);
    let ghost lines = cv.map_values(|e: (Seq<char>, Seq<char>)| pg_up_line(e.0, e.1));
    let mut sql = String::from_str(
        "\n\t\t\t\tALTER TABLE \"book_club_book_suggestion_likes\" DROP CONSTRAINT IF EXISTS \"FK_book_club_book_suggestion_likes_book_club_book_suggestions\";\n\t\t\t\tALTER TABLE \"finished_reading_sessions\" DROP CONSTRAINT IF EXISTS \"fk-finished_reading_sessions-device\";\n",
    );
    let ghost head = sql@;
    let mut i: usize = 0;
    while i < columns.len()
        invariant
            cv == pg_columns_view(columns@),
            lines == cv.map_values(|e: (Seq<char>, Seq<char>)| pg_up_line(e.0, e.1)),
            i <= columns.len(),
            sql@ == head + concat_lines(lines.take(i as int)),
        decreases columns.len() - i,
    {
        let (table, column) = columns[i];
        sql.append("\t\t\t\tALTER TABLE \"");
        sql.append(table);
        sql.append("\" ALTER COLUMN \"");
        sql.append(column);
        sql.append("\" TYPE UUID USING \"");
        sql.append(column);
        sql.append("\"::uuid;\n");
        assert(lines.take(i + 1).drop_last() =~= lines.take(i as int));
        i += 1;
    }
    assert(lines.take(columns.len() as int) =~= lines);
    sql.append("\t\t\t");
    sql
}

/// Builds the Postgres down script for a column list and revert order.
pub fn postgres_down_sql(columns: &[(&str, &str)], order: &[usize]) -> (r: String)
    ensures
        r@ == pg_down_script(pg_columns_view(columns@), order@),
{
    let ghost cv = pg_columns_view(columns@);
    let ghost lines = order@.map_values(|k: usize| pg_revert_line(cv, k as int));
    let mut sql = String::from_str("\n");
    let mut j: usize = 0;
    while j < order.len()
        invariant
            cv == pg_columns_view(columns@),
            lines == order@.map_values(|k: usize| pg_revert_line(cv, k as int)),
            j <= order.len(),
            sql@ == "\n"@ + concat_lines(lines.take(j as int)),
        decreases order.len() - j,
    {
        let k = order[j];
        if k < columns.len() {
            let (table, column) = columns[k];
            sql.append("\t\t\t\tALTER TABLE \"");
            sql.append(table);
            sql.append("\" ALTER COLUMN \"");
            sql.append(column);
            sql.append("\" TYPE TEXT;\n");
        }
        assert(lines.take(j + 1).drop_last() =~= lines.take(j as int));
        assert(lines[j as int] == pg_revert_line(cv, k as int));
        assert(lines.take(j + 1).last() == lines[j as int]);
        j += 1;
    }
    assert(lines.take(order.len() as int) =~= lines);
    sql.append(
        "\t\t\t\tALTER TABLE \"book_club_book_suggestion_likes\" ADD CONSTRAINT \"FK_book_club_book_suggestion_likes_book_club_book_suggestions\" FOREIGN KEY (\"suggestion_id\") REFERENCES \"book_club_book_suggestions\"(\"id\");\n\t\t\t",
    );
    sql
}

/// The migration that converts the text identifier columns to UUID.
pub struct Migration;

impl Migration {
    /// The actions that bring the schema up: on SQLite the foreign-key drops
    /// and column conversions of the lists above, on Postgres the up script,
    /// on other backends nothing.
    pub fn up(&self, backend: DatabaseBackend) -> (r: Vec<MigrationAction>)
        ensures
            backend == DatabaseBackend::Sqlite ==> actions_view(r@) == sqlite_up_spec(
                SQLITE_FOREIGN_KEY_TABLES@.map_values(|t: &str| t@),
                SQLITE_TEXT_UUID_COLUMNS@.map_values(|e: ColumnEntry| entry_view(e)),
            ),
            backend == DatabaseBackend::Postgres ==> actions_view(r@) == seq![
                ActionSpec::ExecuteSql(pg_up_script(pg_columns_view(POSTGRES_UUID_COLUMNS@))),
            ],
            backend == DatabaseBackend::MySql ==> r@.len() == 0,
    {
        match backend {
            DatabaseBackend::Sqlite => {
                let fk: &[&str] = &SQLITE_FOREIGN_KEY_TABLES;
                let cols: &[ColumnEntry] = &SQLITE_TEXT_UUID_COLUMNS;
                sqlite_up_actions(fk, cols)
            },
            DatabaseBackend::Postgres => {
                let cols: &[(&str, &str)] = &POSTGRES_UUID_COLUMNS;
                let mut out: Vec<MigrationAction> = Vec::new();
                out.push(MigrationAction::ExecuteSql(postgres_up_sql(cols)));
                assert(actions_view(out@) =~= seq![
                    ActionSpec::ExecuteSql(pg_up_script(pg_columns_view(POSTGRES_UUID_COLUMNS@))),
                ]);
                out
            },
            DatabaseBackend::MySql => Vec::new(),
        }
    }

    /// The actions that bring the schema down: on SQLite the reversion of
    /// every listed column, on Postgres the down script, on other backends
    /// nothing.
    pub fn down(&self, backend: DatabaseBackend) -> (r: Vec<MigrationAction>)
        ensures
            backend == DatabaseBackend::Sqlite ==> actions_view(r@) == sqlite_down_spec(
                SQLITE_TEXT_UUID_COLUMNS@.map_values(|e: ColumnEntry| entry_view(e)),
            ),
            backend == DatabaseBackend::Postgres ==> actions_view(r@) == seq![
                ActionSpec::ExecuteSql(
                    pg_down_script(pg_columns_view(POSTGRES_UUID_COLUMNS@), POSTGRES_REVERT_ORDER@),
                ),
            ],
            backend == DatabaseBackend::MySql ==> r@.len() == 0,
    {
        match backend {
            DatabaseBackend::Sqlite => {
                let cols: &[ColumnEntry] = &SQLITE_TEXT_UUID_COLUMNS;
                sqlite_down_actions(cols)
            },
            DatabaseBackend::Postgres => {
                let cols: &[(&str, &str)] = &POSTGRES_UUID_COLUMNS;
                let order: &[usize] = &POSTGRES_REVERT_ORDER;
                let mut out: Vec<MigrationAction> = Vec::new();
                out.push(MigrationAction::ExecuteSql(postgres_down_sql(cols, order)));
                assert(actions_view(out@) =~= seq![
                    ActionSpec::ExecuteSql(
                        pg_down_script(
                            pg_columns_view(POSTGRES_UUID_COLUMNS@),
                            POSTGRES_REVERT_ORDER@,
                        ),
                    ),
                ]);
                out
            },
            DatabaseBackend::MySql => Vec::new(),
        }
    }
}

/// The (table, column) pair that an action converts to `uuid_text`.
pub open spec fn converted_by(a: ActionSpec) -> Seq<(Seq<char>, Seq<char>)> {
    match a {
        ActionSpec::AlterColumnType(t, c, _) => seq![(t, c)],
        ActionSpec::AlterColumnTypeFullCopy(t, c, _, _) => seq![(t, c)],
        _ => seq![],
    }
}

/// The (table, column) pair that an action reverts to `TEXT`.
pub open spec fn reverted_by(a: ActionSpec) -> Seq<(Seq<char>, Seq<char>)> {
    match a {
        ActionSpec::RevertColumnType(t, c, _) => seq![(t, c)],
        _ => seq![],
    }
}

/// The columns that a run of actions converts, in order.
pub open spec fn converted_columns(actions: Seq<ActionSpec>) -> Seq<(Seq<char>, Seq<char>)>
    decreases actions.len(),
{
    if actions.len() == 0 {
        seq![]
    } else {
        converted_columns(actions.drop_last()) + converted_by(actions.last())
    }
}

/// The columns that a run of actions reverts, in order.
pub open spec fn reverted_columns(actions: Seq<ActionSpec>) -> Seq<(Seq<char>, Seq<char>)>
    decreases actions.len(),
{
    if actions.len() == 0 {
        seq![]
    } else {
        reverted_columns(actions.drop_last()) + reverted_by(actions.last())
    }
}

/// The (table, column) pairs of a column list.
pub open spec fn column_pairs(columns: Seq<(Seq<char>, Seq<char>, bool, bool)>) -> Seq<
    (Seq<char>, Seq<char>),
> {
    columns.map_values(|e: (Seq<char>, Seq<char>, bool, bool)| (e.0, e.1))
}

proof fn lemma_converted_append(a: Seq<ActionSpec>, b: Seq<ActionSpec>)
    ensures
        converted_columns(a + b) == converted_columns(a) + converted_columns(b),
    decreases b.len(),
{
    if b.len() == 0 {
        assert(a + b =~= a);
        assert(converted_columns(a) + converted_columns(b) =~= converted_columns(a));
    } else {
        assert((a + b).drop_last() =~= a + b.drop_last());
        lemma_converted_append(a, b.drop_last());
        assert(converted_columns(a + b) =~= converted_columns(a) + converted_columns(b));
    }
}

proof fn lemma_up_converts(columns: Seq<(Seq<char>, Seq<char>, bool, bool)>)
    ensures
        converted_columns(
            columns.map_values(|e: (Seq<char>, Seq<char>, bool, bool)| up_action(e)),
        ) == column_pairs(columns),
    decreases columns.len(),
{
    let ups = columns.map_values(|e: (Seq<char>, Seq<char>, bool, bool)| up_action(e));
    if columns.len() == 0 {
        assert(column_pairs(columns) =~= seq![]);
    } else {
        lemma_up_converts(columns.drop_last());
        assert(ups.drop_last() =~= columns.drop_last().map_values(
            |e: (Seq<char>, Seq<char>, bool, bool)| up_action(e),
        ));
        assert(column_pairs(columns) =~= column_pairs(columns.drop_last()) + seq![
            (columns.last().0, columns.last().1),
        ]);
    }
}

proof fn lemma_fk_converts_nothing(fk_tables: Seq<Seq<char>>)
    ensures
        converted_columns(fk_tables.map_values(|t: Seq<char>| ActionSpec::DropForeignKeys(t)))
            == Seq::<(Seq<char>, Seq<char>)>::empty(),
    decreases fk_tables.len(),
{
    if fk_tables.len() > 0 {
        lemma_fk_converts_nothing(fk_tables.drop_last());
        assert(fk_tables.map_values(|t: Seq<char>| ActionSpec::DropForeignKeys(t)).drop_last()
            =~= fk_tables.drop_last().map_values(|t: Seq<char>| ActionSpec::DropForeignKeys(t)));
    }
}

proof fn lemma_down_reverts(columns: Seq<(Seq<char>, Seq<char>, bool, bool)>)
    ensures
        reverted_columns(sqlite_down_spec(columns)) == column_pairs(columns),
    decreases columns.len(),
{
    if columns.len() == 0 {
        assert(column_pairs(columns) =~= seq![]);
    } else {
        lemma_down_reverts(columns.drop_last());
        assert(sqlite_down_spec(columns).drop_last() =~= sqlite_down_spec(columns.drop_last()));
        assert(column_pairs(columns) =~= column_pairs(columns.drop_last()) + seq![
            (columns.last().0, columns.last().1),
        ]);
    }
}

/// The SQLite down migration reverts exactly the columns that the up
/// migration converts, in the same order: for any list of foreign-key
/// tables and columns, the (table, column) pairs converted by the up
/// actions, the pairs reverted by the down actions and the pairs of the
/// column list are one sequence; and each column is converted by a full
/// table copy when it is unique (in place otherwise) and reverted in place
/// with the unique flag it was converted with.
pub proof fn lemma_sqlite_down_reverts_up(
    fk_tables: Seq<Seq<char>>,
    columns: Seq<(Seq<char>, Seq<char>, bool, bool)>,
)
    ensures
        converted_columns(sqlite_up_spec(fk_tables, columns)) == column_pairs(columns),
        reverted_columns(sqlite_down_spec(columns)) == column_pairs(columns),
        sqlite_up_spec(fk_tables, columns).len() == fk_tables.len() + columns.len(),
        forall|i: int|
            0 <= i < columns.len() ==> {
                let up = #[trigger] sqlite_up_spec(fk_tables, columns)[fk_tables.len() + i];
                let down = sqlite_down_spec(columns)[i];
                &&& converted_by(up) == seq![(columns[i].0, columns[i].1)]
                &&& reverted_by(down) == seq![(columns[i].0, columns[i].1)]
                &&& up == up_action(columns[i])
                &&& down == down_action(columns[i])
            },
{
    let fks = fk_tables.map_values(|t: Seq<char>| ActionSpec::DropForeignKeys(t));
    let ups = columns.map_values(|e: (Seq<char>, Seq<char>, bool, bool)| up_action(e));
    lemma_converted_append(fks, ups);
    lemma_fk_converts_nothing(fk_tables);
    lemma_up_converts(columns);
    assert(Seq::<(Seq<char>, Seq<char>)>::empty() + column_pairs(columns) =~= column_pairs(
        columns,
    ));
    lemma_down_reverts(columns);
}

/// The migration's own lists satisfy [`lemma_sqlite_down_reverts_up`]:
/// `down` on SQLite reverts exactly the columns that `up` converts.
pub proof fn lemma_migration_down_reverts_up()
    ensures
        converted_columns(
            sqlite_up_spec(
                SQLITE_FOREIGN_KEY_TABLES@.map_values(|t: &str| t@),
                SQLITE_TEXT_UUID_COLUMNS@.map_values(|e: ColumnEntry| entry_view(e)),
            ),
        ) == reverted_columns(
            sqlite_down_spec(SQLITE_TEXT_UUID_COLUMNS@.map_values(|e: ColumnEntry| entry_view(e))),
        ),
{
    lemma_sqlite_down_reverts_up(
        SQLITE_FOREIGN_KEY_TABLES@.map_values(|t: &str| t@),
        SQLITE_TEXT_UUID_COLUMNS@.map_values(|e: ColumnEntry| entry_view(e)),
    );
}

/// For each column of [`POSTGRES_UUID_COLUMNS`], its place in
/// [`POSTGRES_REVERT_ORDER`]; the length of that list for a column the
/// down script does not revert.
spec fn pg_revert_place() -> Seq<int> {
    seq![
        79, 53, 69, 70, 62, 61, 45, 0, 1, 2, 3, 4, 82, 5, 6, 7, 8, 9, 10, 11, 12, 13, 14, 15,
        16, 17, 18, 19, 20, 21, 22, 23, 24, 25, 26, 27, 28, 29, 30, 31, 32, 33, 34, 35, 36, 38,
        37, 82, 39, 40, 41, 42, 43, 44, 46, 47, 48, 49, 50, 51, 52, 54, 55, 56, 57, 58, 59, 60,
        63, 64, 65, 66, 82, 67, 68, 71, 72, 73, 74, 75, 76, 77, 78, 80, 81,
    ]
}

/// What the Postgres down script reverts of what the up script converts:
/// every column it reverts is one the up script converts, and none twice;
/// it reverts every converted column except
/// `book_club_book_suggestions.resolved_by_id`,
/// `scheduled_job_libraries.library_id` and `registered_reading_devices.id`,
/// which stay `UUID`.
pub proof fn lemma_postgres_down_reverts_up()
    ensures
        forall|j: int|
            0 <= j < POSTGRES_REVERT_ORDER@.len() ==> #[trigger] POSTGRES_REVERT_ORDER@[j]
                < POSTGRES_UUID_COLUMNS@.len(),
        forall|j1: int, j2: int|
            0 <= j1 < POSTGRES_REVERT_ORDER@.len() && 0 <= j2 < POSTGRES_REVERT_ORDER@.len()
                && j1 != j2 ==> #[trigger] POSTGRES_REVERT_ORDER@[j1]
                != #[trigger] POSTGRES_REVERT_ORDER@[j2],
        forall|k: int|
            #![trigger POSTGRES_UUID_COLUMNS@[k]]
            0 <= k < POSTGRES_UUID_COLUMNS@.len() && k != 12 && k != 47 && k != 72 ==> exists|
                j: int,
            |
                0 <= j < POSTGRES_REVERT_ORDER@.len() && #[trigger] POSTGRES_REVERT_ORDER@[j]
                    == k,
        forall|j: int|
            0 <= j < POSTGRES_REVERT_ORDER@.len() ==> #[trigger] POSTGRES_REVERT_ORDER@[j] != 12
                && POSTGRES_REVERT_ORDER@[j] != 47 && POSTGRES_REVERT_ORDER@[j] != 72,
        POSTGRES_UUID_COLUMNS@[12] == ("book_club_book_suggestions", "resolved_by_id"),
        POSTGRES_UUID_COLUMNS@[47] == ("scheduled_job_libraries", "library_id"),
        POSTGRES_UUID_COLUMNS@[72] == ("registered_reading_devices", "id"),
{
    let order = POSTGRES_REVERT_ORDER@;
    let place = pg_revert_place();
    assert forall|j: int| 0 <= j < order.len() implies place[order[j] as int] == j
        && order[j] < POSTGRES_UUID_COLUMNS@.len() by {}
    assert forall|k: int|
        0 <= k < POSTGRES_UUID_COLUMNS@.len() && k != 12 && k != 47 && k != 72 implies 0 <= place[k]
        < order.len() && order[place[k]] == k by {}
    assert forall|k: int|
        #![trigger POSTGRES_UUID_COLUMNS@[k]]
        0 <= k < POSTGRES_UUID_COLUMNS@.len() && k != 12 && k != 47 && k != 72 implies exists|
            j: int,
        | 0 <= j < order.len() && #[trigger] order[j] == k by {
        assert(order[place[k]] == k);
    }
}

} // verus!
