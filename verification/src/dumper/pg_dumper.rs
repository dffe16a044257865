//! Postgres: each table is dumped as one JSON array of its rows and
//! restored with `json_populate_recordset`. The dump folder and file names
//! are shared by both databases.

use vstd::prelude::*;
use vstd::string::*;

verus! {

/// The name of the file that holds a table's dump.
pub open spec fn dump_file_name_spec(table: Seq<char>) -> Seq<char> {
    table + ".json"@
}

/// The name of the file that holds a table's dump: the table's name with
/// `.json` appended.
pub fn dump_file_name(table: &str) -> (r: String)
    ensures
        r@ == dump_file_name_spec(table@),
{
    let mut name = String::from_str(table);
    name.append(".json");
    name
}

/// The dump of a table: the `json_data` text the dump query returned, or
/// `[]` when it returned no row.
pub fn json_or_empty_array(json_data: Option<String>) -> (r: String)
    ensures
        r@ == match json_data {
            Some(j) => j@,
            None => "[]"@,
        },
{
    match json_data {
        Some(j) => j,
        None => String::from_str("[]"),
    }
}

/// The query that reads a whole table as one JSON array text in the
/// column `json_data` (`[]` when the table is empty).
pub fn pg_dump_table_query(table: &str) -> (r: String)
    ensures
        r@ == "SELECT COALESCE(json_agg(row_to_json(t)), '[]'::json)::TEXT AS json_data FROM (SELECT * FROM \""@
            + table@ + "\") t"@,
{
    let mut q = String::from_str(
        "SELECT COALESCE(json_agg(row_to_json(t)), '[]'::json)::TEXT AS json_data FROM (SELECT * FROM \"",
    );
    q.append(table);
    q.append("\") t");
    q
}

/// The statement that inserts every row of the JSON array bound to `$1`
/// into the table, each JSON field into the column of its name.
pub fn pg_restore_table_query(table: &str) -> (r: String)
    ensures
        r@ == "INSERT INTO \""@ + table@ + "\" SELECT * FROM json_populate_recordset(null::\""@
            + table@ + "\", $1::json)"@,
{
    let mut q = String::from_str("INSERT INTO \"");
    q.append(table);
    q.append("\" SELECT * FROM json_populate_recordset(null::\"");
    q.append(table);
    q.append("\", $1::json)");
    q
}

} // verus!
