use stump::migration::{
    postgres_down_sql, postgres_up_sql, sqlite_down_actions, sqlite_up_actions, DatabaseBackend,
    Migration, MigrationAction, POSTGRES_REVERT_ORDER, POSTGRES_UUID_COLUMNS,
    SQLITE_FOREIGN_KEY_TABLES, SQLITE_TEXT_UUID_COLUMNS,
};

fn script(actions: Vec<MigrationAction>) -> String {
    match actions.as_slice() {
        [MigrationAction::ExecuteSql(sql)] => sql.clone(),
        other => panic!("expected one script, got {:?}", other),
    }
}

#[test]
fn sqlite_up_drops_foreign_keys_then_converts() {
    let actions = Migration.up(DatabaseBackend::Sqlite);
    assert_eq!(actions.len(), 12 + 84);
    assert_eq!(
        actions[0],
        MigrationAction::DropForeignKeys("book_club_discussion_message".to_string())
    );
    assert_eq!(actions[11], MigrationAction::DropForeignKeys("refresh_tokens".to_string()));
    assert_eq!(
        actions[12],
        MigrationAction::AlterColumnType("users".to_string(), "id".to_string(), false)
    );
    let age = SQLITE_TEXT_UUID_COLUMNS
        .iter()
        .position(|e| e.0 == "age_restrictions")
        .unwrap();
    assert_eq!(
        actions[12 + age],
        MigrationAction::AlterColumnTypeFullCopy(
            "age_restrictions".to_string(),
            "user_id".to_string(),
            true,
            false
        )
    );
}

#[test]
fn full_copies_skip_only_composite_keys() {
    let skipped: Vec<&str> = SQLITE_TEXT_UUID_COLUMNS
        .iter()
        .filter(|e| e.3)
        .map(|e| e.0)
        .collect();
    assert_eq!(
        skipped,
        vec![
            "favorite_libraries",
            "favorite_libraries",
            "favorite_media",
            "favorite_media",
            "favorite_series",
            "favorite_series",
        ]
    );
    assert!(SQLITE_TEXT_UUID_COLUMNS.iter().all(|e| !e.3 || e.2));
    let smart_lists = SQLITE_TEXT_UUID_COLUMNS.iter().find(|e| e.0 == "smart_lists" && e.1 == "id").unwrap();
    assert_eq!(*smart_lists, ("smart_lists", "id", true, false));
}

#[test]
fn reviews_columns_stay_text() {
    assert!(SQLITE_TEXT_UUID_COLUMNS.iter().all(|e| e.0 != "reviews"));
    assert!(POSTGRES_UUID_COLUMNS.iter().all(|e| e.0 != "reviews"));
    let up = script(Migration.up(DatabaseBackend::Postgres));
    let down = script(Migration.down(DatabaseBackend::Postgres));
    assert!(!up.contains("\"reviews\""));
    assert!(!down.contains("\"reviews\""));
}

#[test]
fn sqlite_down_reverts_every_column() {
    let up = Migration.up(DatabaseBackend::Sqlite);
    let down = Migration.down(DatabaseBackend::Sqlite);
    assert_eq!(down.len(), 84);
    for (i, action) in down.iter().enumerate() {
        let (t, c, u, k) = SQLITE_TEXT_UUID_COLUMNS[i];
        assert_eq!(*action, MigrationAction::RevertColumnType(t.to_string(), c.to_string(), u));
        if u {
            assert_eq!(
                up[12 + i],
                MigrationAction::AlterColumnTypeFullCopy(t.to_string(), c.to_string(), u, k)
            );
        } else {
            assert_eq!(up[12 + i], MigrationAction::AlterColumnType(t.to_string(), c.to_string(), u));
        }
    }
}

#[test]
fn postgres_scripts() {
    let up = script(Migration.up(DatabaseBackend::Postgres));
    assert!(up.starts_with("\n\t\t\t\tALTER TABLE \"book_club_book_suggestion_likes\" DROP CONSTRAINT IF EXISTS \"FK_book_club_book_suggestion_likes_book_club_book_suggestions\";\n\t\t\t\tALTER TABLE \"finished_reading_sessions\" DROP CONSTRAINT IF EXISTS \"fk-finished_reading_sessions-device\";\n\t\t\t\tALTER TABLE \"users\" ALTER COLUMN \"id\" TYPE UUID USING \"id\"::uuid;\n"));
    assert!(up.ends_with("\t\t\t\tALTER TABLE \"library_scan_records\" ALTER COLUMN \"job_id\" TYPE UUID USING \"job_id\"::uuid;\n\t\t\t"));
    assert_eq!(up.matches("TYPE UUID USING").count(), 85);
    let down = script(Migration.down(DatabaseBackend::Postgres));
    assert!(down.starts_with("\n\t\t\t\tALTER TABLE \"age_restrictions\" ALTER COLUMN \"user_id\" TYPE TEXT;\n"));
    assert!(down.ends_with("\t\t\t\tALTER TABLE \"book_club_book_suggestion_likes\" ADD CONSTRAINT \"FK_book_club_book_suggestion_likes_book_club_book_suggestions\" FOREIGN KEY (\"suggestion_id\") REFERENCES \"book_club_book_suggestions\"(\"id\");\n\t\t\t"));
    assert_eq!(down.matches("TYPE TEXT;").count(), 82);
}

#[test]
fn postgres_down_leaves_three_columns_uuid() {
    let up = script(Migration.up(DatabaseBackend::Postgres));
    let down = script(Migration.down(DatabaseBackend::Postgres));
    let mut left = Vec::new();
    for (t, c) in POSTGRES_UUID_COLUMNS {
        assert!(up.contains(&format!("ALTER TABLE \"{}\" ALTER COLUMN \"{}\" TYPE UUID", t, c)));
        if !down.contains(&format!("ALTER TABLE \"{}\" ALTER COLUMN \"{}\" TYPE TEXT;", t, c)) {
            left.push((t, c));
        }
    }
    assert_eq!(
        left,
        vec![
            ("book_club_book_suggestions", "resolved_by_id"),
            ("scheduled_job_libraries", "library_id"),
            ("registered_reading_devices", "id"),
        ]
    );
    let mut seen = POSTGRES_REVERT_ORDER.to_vec();
    seen.sort();
    seen.dedup();
    assert_eq!(seen.len(), POSTGRES_REVERT_ORDER.len());
}

#[test]
fn postgres_scripts_on_a_custom_list() {
    let cols = [("t", "a"), ("u", "b")];
    assert_eq!(
        postgres_up_sql(&cols),
        "\n\t\t\t\tALTER TABLE \"book_club_book_suggestion_likes\" DROP CONSTRAINT IF EXISTS \"FK_book_club_book_suggestion_likes_book_club_book_suggestions\";\n\t\t\t\tALTER TABLE \"finished_reading_sessions\" DROP CONSTRAINT IF EXISTS \"fk-finished_reading_sessions-device\";\n\t\t\t\tALTER TABLE \"t\" ALTER COLUMN \"a\" TYPE UUID USING \"a\"::uuid;\n\t\t\t\tALTER TABLE \"u\" ALTER COLUMN \"b\" TYPE UUID USING \"b\"::uuid;\n\t\t\t"
    );
    assert_eq!(
        postgres_down_sql(&cols, &[1, 7, 0]),
        "\n\t\t\t\tALTER TABLE \"u\" ALTER COLUMN \"b\" TYPE TEXT;\n\t\t\t\tALTER TABLE \"t\" ALTER COLUMN \"a\" TYPE TEXT;\n\t\t\t\tALTER TABLE \"book_club_book_suggestion_likes\" ADD CONSTRAINT \"FK_book_club_book_suggestion_likes_book_club_book_suggestions\" FOREIGN KEY (\"suggestion_id\") REFERENCES \"book_club_book_suggestions\"(\"id\");\n\t\t\t"
    );
}

#[test]
fn mysql_does_nothing() {
    assert!(Migration.up(DatabaseBackend::MySql).is_empty());
    assert!(Migration.down(DatabaseBackend::MySql).is_empty());
}

#[test]
fn up_and_down_on_a_custom_list() {
    let cols = [("a", "x", false, false), ("b", "y", true, true)];
    let up = sqlite_up_actions(&["t"], &cols);
    assert_eq!(
        up,
        vec![
            MigrationAction::DropForeignKeys("t".to_string()),
            MigrationAction::AlterColumnType("a".to_string(), "x".to_string(), false),
            MigrationAction::AlterColumnTypeFullCopy("b".to_string(), "y".to_string(), true, true),
        ]
    );
    assert_eq!(
        sqlite_down_actions(&cols),
        vec![
            MigrationAction::RevertColumnType("a".to_string(), "x".to_string(), false),
            MigrationAction::RevertColumnType("b".to_string(), "y".to_string(), true),
        ]
    );
    assert_eq!(SQLITE_FOREIGN_KEY_TABLES.len(), 12);
}
