use stump::dumper::pg_dumper::{
    dump_file_name, json_or_empty_array, pg_dump_table_query, pg_restore_table_query,
};
use stump::dumper::sqlite_dumper::{
    sqlite_dump_table_info_query, sqlite_dump_table_query, sqlite_restore_table_query,
};

#[test]
fn pg_queries() {
    assert_eq!(
        pg_dump_table_query("media"),
        format!(
            "SELECT COALESCE(json_agg(row_to_json(t)), '[]'::json)::TEXT AS json_data FROM (SELECT * FROM \"{}\") t",
            "media"
        )
    );
    assert_eq!(
        pg_restore_table_query("media"),
        format!(
            "INSERT INTO \"{}\" SELECT * FROM json_populate_recordset(null::\"{}\", $1::json)",
            "media", "media"
        )
    );
    assert_eq!(dump_file_name("media"), "media.json");
}

#[test]
fn sqlite_dump_query() {
    let cols = vec!["id".to_string(), "name".to_string()];
    assert_eq!(
        sqlite_dump_table_query("series", &cols),
        Some(
            "SELECT COALESCE(json_group_array(json_object('id', \"id\", 'name', \"name\")), '[]') AS json_data FROM \"series\""
                .to_string()
        )
    );
    assert_eq!(sqlite_dump_table_query("series", &vec![]), None);
    assert_eq!(sqlite_dump_table_info_query("series"), "PRAGMA table_info(\"series\")");
}

#[test]
fn sqlite_restore_query() {
    let cols = vec!["id".to_string(), "name".to_string()];
    assert_eq!(
        sqlite_restore_table_query("series", &cols, "[{\"id\":\"1\",\"name\":\"a\"}]"),
        Some(
            "INSERT INTO \"series\" (\"id\", \"name\") SELECT json_extract(value, '$.id'), json_extract(value, '$.name') FROM json_each(?1)"
                .to_string()
        )
    );
}

#[test]
fn sqlite_restore_skips_empty_dumps() {
    let cols = vec!["id".to_string()];
    assert_eq!(sqlite_restore_table_query("series", &cols, "[]"), None);
    assert_eq!(sqlite_restore_table_query("series", &cols, "  []\n"), None);
    assert_eq!(sqlite_restore_table_query("series", &cols, " \n\t"), None);
    assert_eq!(sqlite_restore_table_query("series", &cols, ""), None);
    assert_eq!(sqlite_restore_table_query("series", &vec![], "[{\"id\":1}]"), None);
    assert!(sqlite_restore_table_query("series", &cols, "[ ]").is_some());
}

#[test]
fn missing_dump_row_is_empty_array() {
    assert_eq!(json_or_empty_array(None), "[]");
    assert_eq!(json_or_empty_array(Some("[{\"a\":1}]".to_string())), "[{\"a\":1}]");
}
