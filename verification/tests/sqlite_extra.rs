use stump::sqlite_extra::{
    has_column_named, sqlite_alter_column_type, sqlite_alter_column_type_full_copy,
    sqlite_drop_foreign_keys, sqlite_drop_indexes, sqlite_index_exists_query,
    sqlite_revert_column_type, sqlite_set_id_primary_key, sqlite_table_info_query, MigrationStep,
    SqliteColumnInfo,
};

fn col(name: &str, ty: &str, not_null: bool, default: Option<&str>, pk: i64) -> SqliteColumnInfo {
    SqliteColumnInfo {
        name: name.to_string(),
        column_type: ty.to_string(),
        not_null,
        default_value: default.map(|d| d.to_string()),
        pk_position: pk,
    }
}

fn copy_sql(table: &str, column_defs: &str, columns: &str, select_exprs: &str) -> String {
    format!(
        r#"
			PRAGMA foreign_keys=OFF;
			CREATE TABLE {tmp_table} ({column_defs});
			INSERT INTO {tmp_table} ({columns}) SELECT {select_exprs} FROM {table};
			DROP TABLE {table};
			ALTER TABLE {tmp_table} RENAME TO {table};
			PRAGMA foreign_keys=ON;
		"#,
        tmp_table = format!("\"{}__col_copy_tmp\"", table),
        column_defs = column_defs,
        columns = columns,
        select_exprs = select_exprs,
        table = format!("\"{}\"", table),
    )
}

fn sample_columns() -> Vec<SqliteColumnInfo> {
    vec![
        col("id", "TEXT", true, None, 1),
        col("name", "TEXT", true, Some("'x'"), 0),
        col("library_id", "TEXT", false, None, 0),
    ]
}

fn rebuild(table: &str, tmp_table: &str, column_defs: &str, columns: &str) -> String {
    format!(
        r#"
			PRAGMA foreign_keys=OFF;
			ALTER TABLE {table} RENAME TO {tmp_table};
			CREATE TABLE {table} ({column_defs});
			INSERT INTO {table} ({columns}) SELECT {columns} FROM {tmp_table};
			DROP TABLE {tmp_table};
			PRAGMA foreign_keys=ON;
		"#,
        table = table,
        tmp_table = tmp_table,
        column_defs = column_defs,
        columns = columns,
    )
}

#[test]
fn table_info_query() {
    assert_eq!(sqlite_table_info_query("my\"table"), "PRAGMA table_info(\"my\"\"table\")");
}

#[test]
fn set_id_primary_key_with_key() {
    let sql = sqlite_set_id_primary_key("series", &sample_columns(), "uuid_text", true).unwrap();
    let expected = rebuild(
        "\"series\"",
        "\"series__pk_swap_tmp\"",
        "\"id\" uuid_text NOT NULL PRIMARY KEY, \"name\" TEXT NOT NULL DEFAULT 'x', \"library_id\" TEXT",
        "\"id\", \"name\", \"library_id\"",
    );
    assert_eq!(sql, expected);
}

#[test]
fn set_id_primary_key_without_key() {
    let sql = sqlite_set_id_primary_key("series", &sample_columns(), "uuid_text", false).unwrap();
    let expected = rebuild(
        "\"series\"",
        "\"series__pk_swap_tmp\"",
        "\"id\" uuid_text NOT NULL, \"name\" TEXT NOT NULL DEFAULT 'x', \"library_id\" TEXT",
        "\"id\", \"name\", \"library_id\"",
    );
    assert_eq!(sql, expected);
}

#[test]
fn set_id_primary_key_keeps_other_primary_keys() {
    let cols = vec![col("user_id", "TEXT", true, None, 1), col("id", "TEXT", false, None, 0)];
    let sql = sqlite_set_id_primary_key("t", &cols, "uuid_text", false).unwrap();
    let expected = rebuild(
        "\"t\"",
        "\"t__pk_swap_tmp\"",
        "\"user_id\" TEXT NOT NULL PRIMARY KEY, \"id\" uuid_text",
        "\"user_id\", \"id\"",
    );
    assert_eq!(sql, expected);
}

#[test]
fn set_id_primary_key_missing_table() {
    assert!(sqlite_set_id_primary_key("nope", &vec![], "uuid_text", true).is_none());
}

#[test]
fn drop_foreign_keys_rebuilds_table() {
    let sql = sqlite_drop_foreign_keys("media", &sample_columns()).unwrap();
    let expected = rebuild(
        "\"media\"",
        "\"media__drop_fk_tmp\"",
        "\"id\" TEXT NOT NULL PRIMARY KEY, \"name\" TEXT NOT NULL DEFAULT 'x', \"library_id\" TEXT",
        "\"id\", \"name\", \"library_id\"",
    );
    assert_eq!(sql, expected);
    assert!(sqlite_drop_foreign_keys("media", &vec![]).is_none());
}

#[test]
fn full_copy_skipping_key_declares_no_key() {
    let cols = vec![col("u", "TEXT", true, None, 1), col("m", "TEXT", true, None, 2)];
    let sql = sqlite_alter_column_type_full_copy("f", "m", true, true, &cols).unwrap();
    let expected = copy_sql(
        "f",
        "\"u\" TEXT NOT NULL, \"m\" uuid_text NOT NULL UNIQUE",
        "\"u\", \"m\"",
        "\"u\", CASE WHEN \"m\" IS NULL THEN NULL ELSE lower(CAST(\"m\" AS TEXT)) END",
    );
    assert_eq!(sql, expected);
}

#[test]
fn full_copy_declares_key_on_each_key_column() {
    let cols = vec![
        col("user_id", "TEXT", true, None, 1),
        col("series_id", "TEXT", true, None, 2),
        col("favorited_at", "TEXT", true, Some("CURRENT_TIMESTAMP"), 0),
    ];
    let sql = sqlite_alter_column_type_full_copy("favorite_series", "user_id", true, false, &cols).unwrap();
    let expected = copy_sql(
        "favorite_series",
        "\"user_id\" uuid_text NOT NULL PRIMARY KEY UNIQUE, \"series_id\" TEXT NOT NULL PRIMARY KEY, \"favorited_at\" TEXT NOT NULL DEFAULT CURRENT_TIMESTAMP",
        "\"user_id\", \"series_id\", \"favorited_at\"",
        "CASE WHEN \"user_id\" IS NULL THEN NULL ELSE lower(CAST(\"user_id\" AS TEXT)) END, \"series_id\", \"favorited_at\"",
    );
    assert_eq!(sql, expected);
}

#[test]
fn full_copy_keeps_single_key() {
    let cols = vec![
        col("id", "INTEGER", true, None, 1),
        col("user_id", "uuid_text", true, None, 0),
        col("media_id", "TEXT", true, None, 0),
    ];
    let sql = sqlite_alter_column_type_full_copy("finished_reading_sessions", "media_id", true, false, &cols)
        .unwrap();
    let expected = copy_sql(
        "finished_reading_sessions",
        "\"id\" INTEGER NOT NULL PRIMARY KEY, \"user_id\" uuid_text NOT NULL, \"media_id\" uuid_text NOT NULL UNIQUE",
        "\"id\", \"user_id\", \"media_id\"",
        "\"id\", \"user_id\", CASE WHEN \"media_id\" IS NULL THEN NULL ELSE lower(CAST(\"media_id\" AS TEXT)) END",
    );
    assert_eq!(sql, expected);
    assert!(sqlite_alter_column_type_full_copy("t", "c", true, false, &vec![]).is_none());
}

#[test]
fn full_copy_without_unique_or_key() {
    let cols = vec![col("id", "INTEGER", true, None, 1), col("user_id", "TEXT", false, None, 0)];
    let sql = sqlite_alter_column_type_full_copy("sessions", "user_id", false, true, &cols).unwrap();
    assert!(sql.contains("CREATE TABLE \"sessions__col_copy_tmp\" (\"id\" INTEGER NOT NULL, \"user_id\" uuid_text);"));
}

#[test]
fn rebuild_declares_key_on_each_key_column() {
    let cols = vec![
        col("media_id", "TEXT", true, None, 2),
        col("user_id", "TEXT", true, None, 1),
    ];
    let sql = sqlite_drop_foreign_keys("favorite_media", &cols).unwrap();
    assert!(sql.contains(
        "CREATE TABLE \"favorite_media\" (\"media_id\" TEXT NOT NULL PRIMARY KEY, \"user_id\" TEXT NOT NULL PRIMARY KEY);"
    ));
    let sql = sqlite_set_id_primary_key("t", &vec![col("a", "TEXT", true, None, 1), col("id", "TEXT", true, None, 0)], "uuid_text", true).unwrap();
    assert!(sql.contains("(\"a\" TEXT NOT NULL PRIMARY KEY, \"id\" uuid_text NOT NULL PRIMARY KEY)"));
}

fn alter_sql(table: &str, column: &str, temp_column: &str) -> String {
    format!(
        r#"
			PRAGMA foreign_keys=OFF;
			ALTER TABLE {table} ADD COLUMN {temp_column} uuid_text;
			UPDATE {table}
			SET {temp_column} = CASE
				WHEN {column} IS NULL THEN NULL
				ELSE lower({column})
			END;
			ALTER TABLE {table} DROP COLUMN {column};
			ALTER TABLE {table} RENAME COLUMN {temp_column} TO {column};
			PRAGMA foreign_keys=ON;
		"#,
        table = table,
        column = column,
        temp_column = temp_column,
    )
}

fn revert_sql(table: &str, column: &str, temp_column: &str) -> String {
    format!(
        r#"
			PRAGMA foreign_keys=OFF;
			ALTER TABLE {table} ADD COLUMN {temp_column} TEXT;
			UPDATE {table}
			SET {temp_column} = CASE
				WHEN {column} IS NULL THEN NULL
				ELSE CAST({column} AS TEXT)
			END;
			ALTER TABLE {table} DROP COLUMN {column};
			ALTER TABLE {table} RENAME COLUMN {temp_column} TO {column};
			PRAGMA foreign_keys=ON;
		"#,
        table = table,
        column = column,
        temp_column = temp_column,
    )
}

#[test]
fn alter_plain_column() {
    let steps = sqlite_alter_column_type("series", "library_id", false, &sample_columns());
    assert_eq!(
        steps,
        vec![MigrationStep::Execute(alter_sql(
            "\"series\"",
            "\"library_id\"",
            "\"library_id__tmp_uuid\""
        ))]
    );
}

#[test]
fn alter_id_unique_with_leftover() {
    let mut cols = sample_columns();
    cols.push(col("id__tmp_uuid", "uuid_text", false, None, 0));
    let steps = sqlite_alter_column_type("users", "id", true, &cols);
    assert_eq!(
        steps,
        vec![
            MigrationStep::ExecuteIgnoringErrors(
                "ALTER TABLE \"users\" DROP COLUMN \"id__tmp_uuid\"".to_string()
            ),
            MigrationStep::SetIdPrimaryKey("uuid_text".to_string(), false),
            MigrationStep::ExecuteIgnoringErrors(
                "DROP INDEX IF EXISTS \"sqlite_autoindex_users_1\"".to_string()
            ),
            MigrationStep::Execute(alter_sql("\"users\"", "\"id\"", "\"id__tmp_uuid\"")),
            MigrationStep::SetIdPrimaryKey("uuid_text".to_string(), true),
            MigrationStep::ExecuteIgnoringErrors(
                "CREATE UNIQUE INDEX \"sqlite_autoindex_users_1\" ON \"users\" (\"id\")".to_string()
            ),
        ]
    );
}

#[test]
fn revert_unique_column() {
    let steps = sqlite_revert_column_type("age_restrictions", "user_id", true, &sample_columns());
    assert_eq!(
        steps,
        vec![
            MigrationStep::ExecuteIgnoringErrors(
                "DROP INDEX IF EXISTS \"sqlite_autoindex_age_restrictions_1\"".to_string()
            ),
            MigrationStep::Execute(revert_sql(
                "\"age_restrictions\"",
                "\"user_id\"",
                "\"user_id__tmp_text\""
            )),
            MigrationStep::ExecuteIgnoringErrors(
                "CREATE UNIQUE INDEX \"sqlite_autoindex_age_restrictions_1\" ON \"age_restrictions\" (\"user_id\")".to_string()
            ),
        ]
    );
}

#[test]
fn revert_id_with_leftover() {
    let cols = vec![col("id", "uuid_text", true, None, 1), col("id__tmp_text", "TEXT", false, None, 0)];
    let steps = sqlite_revert_column_type("jobs", "id", false, &cols);
    assert_eq!(
        steps,
        vec![
            MigrationStep::ExecuteIgnoringErrors(
                "ALTER TABLE \"jobs\" DROP COLUMN \"id__tmp_text\"".to_string()
            ),
            MigrationStep::SetIdPrimaryKey("uuid_text".to_string(), false),
            MigrationStep::Execute(revert_sql("\"jobs\"", "\"id\"", "\"id__tmp_text\"")),
            MigrationStep::SetIdPrimaryKey("uuid_text".to_string(), true),
        ]
    );
}

#[test]
fn leftover_column_lookup() {
    assert!(has_column_named(&sample_columns(), "library_id"));
    assert!(!has_column_named(&sample_columns(), "library_id__tmp_uuid"));
    assert!(!has_column_named(&vec![], "id"));
}

#[test]
fn drop_index_queries() {
    let expected = format!(
        r#"
			SELECT 1
			FROM sqlite_master
			WHERE type = 'index'
				AND name = {index_name}
				AND tbl_name = {table_name}
			LIMIT 1
		"#,
        index_name = "\"idx_media\"",
        table_name = "\"media\"",
    );
    assert_eq!(sqlite_index_exists_query("media", "idx_media"), expected);
    assert_eq!(
        sqlite_drop_indexes("idx_media", true),
        Some("DROP INDEX IF EXISTS \"idx_media\"".to_string())
    );
    assert_eq!(sqlite_drop_indexes("idx_media", false), None);
}

#[test]
fn pragma_row_conversion() {
    let c = SqliteColumnInfo::from_pragma_row(
        "id".to_string(),
        "TEXT".to_string(),
        1,
        Some("'a'".to_string()),
        2,
    );
    assert_eq!(c.name, "id");
    assert_eq!(c.column_type, "TEXT");
    assert!(c.not_null);
    assert_eq!(c.default_value.as_deref(), Some("'a'"));
    assert_eq!(c.pk_position, 2);
    let c = SqliteColumnInfo::from_pragma_row("x".to_string(), "".to_string(), 0, None, 0);
    assert!(!c.not_null);
    assert_eq!(c.default_value, None);
}

#[test]
fn full_copy_run_again_builds_the_same_statement() {
    let cols = vec![
        col("id", "INTEGER", true, None, 1),
        col("user_id", "TEXT", true, Some("''"), 0),
        col("note", "TEXT", false, None, 0),
    ];
    let first = sqlite_alter_column_type_full_copy("sessions", "user_id", true, false, &cols).unwrap();
    let read_back = vec![
        col("id", "INTEGER", true, None, 1),
        col("user_id", "uuid_text", true, Some("''"), 0),
        col("note", "TEXT", false, None, 0),
    ];
    let second = sqlite_alter_column_type_full_copy("sessions", "user_id", true, false, &read_back).unwrap();
    assert_eq!(first, second);

    let skipped = sqlite_alter_column_type_full_copy("f", "m", true, true, &vec![
        col("u", "TEXT", true, None, 1),
        col("m", "TEXT", true, None, 2),
    ])
    .unwrap();
    let skipped_again = sqlite_alter_column_type_full_copy("f", "m", true, true, &vec![
        col("u", "TEXT", true, None, 0),
        col("m", "uuid_text", true, None, 0),
    ])
    .unwrap();
    assert_eq!(skipped, skipped_again);
}

#[test]
fn drop_foreign_keys_run_again_builds_the_same_statement() {
    let first = sqlite_drop_foreign_keys("media", &sample_columns()).unwrap();
    let second = sqlite_drop_foreign_keys("media", &sample_columns()).unwrap();
    assert_eq!(first, second);
    let keyed_at_two = vec![col("a", "TEXT", false, None, 0), col("b", "TEXT", true, None, 2)];
    let read_back = vec![col("a", "TEXT", false, None, 0), col("b", "TEXT", true, None, 1)];
    assert_eq!(
        sqlite_drop_foreign_keys("t", &keyed_at_two).unwrap(),
        sqlite_drop_foreign_keys("t", &read_back).unwrap()
    );
}

#[test]
fn revert_after_alter_finds_no_leftover() {
    let cols = vec![
        col("id", "INTEGER", true, None, 1),
        col("user_id", "TEXT", true, None, 0),
        col("name", "TEXT", false, None, 0),
    ];
    let alter = sqlite_alter_column_type("refresh_tokens", "user_id", false, &cols);
    assert_eq!(alter.len(), 1);
    let after_alter = vec![
        col("id", "INTEGER", true, None, 1),
        col("name", "TEXT", false, None, 0),
        col("user_id", "uuid_text", false, None, 0),
    ];
    let revert = sqlite_revert_column_type("refresh_tokens", "user_id", false, &after_alter);
    assert_eq!(revert, sqlite_revert_column_type("refresh_tokens", "user_id", false, &cols));
    assert_eq!(revert.len(), 1);
    assert!(matches!(revert[0], MigrationStep::Execute(_)));
}
