//! SQLite: each table is dumped as one JSON array of objects keyed by
//! column name, and restored by extracting each column's key.

use vstd::prelude::*;
use vstd::string::*;
use crate::text::{join, join_strings, str_equal, trim, trim_str};

verus! {

/// The `PRAGMA table_info` query of the dumper; the table name is put
/// between double quotes as it is.
pub fn sqlite_dump_table_info_query(table: &str) -> (r: String)
    ensures
        r@ == "PRAGMA table_info(\""@ + table@ + "\")"@,
{
    let mut q = String::from_str("PRAGMA table_info(\"");
    q.append(table);
    q.append("\")");
    q
}

/// The `json_object` argument pair of a column: its name as key, its
/// value as value.
pub open spec fn object_arg(col: Seq<char>) -> Seq<char> {
    "'"@ + col + "', \""@ + col + "\""@
}

/// The restore's selection of a column: the value under the column's key.
pub open spec fn extract_arg(col: Seq<char>) -> Seq<char> {
    "json_extract(value, '$."@ + col + "')"@
}

/// A column name between double quotes.
pub open spec fn dq(col: Seq<char>) -> Seq<char> {
    "\""@ + col + "\""@
}

/// The `json_object` arguments of the columns.
pub open spec fn object_args(cols: Seq<Seq<char>>) -> Seq<Seq<char>> {
    cols.map_values(|c: Seq<char>| object_arg(c))
}

/// The columns between double quotes.
pub open spec fn quoted_cols(cols: Seq<Seq<char>>) -> Seq<Seq<char>> {
    cols.map_values(|c: Seq<char>| dq(c))
}

/// The restore's selections of the columns.
pub open spec fn extract_args(cols: Seq<Seq<char>>) -> Seq<Seq<char>> {
    cols.map_values(|c: Seq<char>| extract_arg(c))
}

/// The dump query of a table with the given columns.
pub open spec fn dump_query_spec(table: Seq<char>, cols: Seq<Seq<char>>) -> Seq<char> {
    "SELECT COALESCE(json_group_array(json_object("@ + join(object_args(cols), ", "@) + ")), '[]') AS json_data FROM \""@ + table + "\""@
}

/// The restore statement of a table with the given columns.
pub open spec fn restore_query_spec(table: Seq<char>, cols: Seq<Seq<char>>) -> Seq<char> {
    "INSERT INTO \""@ + table + "\" ("@ + join(quoted_cols(cols), ", "@)
        + ") SELECT "@ + join(extract_args(cols), ", "@)
        + " FROM json_each(?1)"@
}

/// The three per-column pieces the dump and restore queries are built of.
enum ColumnTemplate {
    ObjectArg,
    Quoted,
    Extract,
}

/// The pieces of every column under one template.
spec fn template_pieces(template: ColumnTemplate, cols: Seq<Seq<char>>) -> Seq<Seq<char>> {
    match template {
        ColumnTemplate::ObjectArg => object_args(cols),
        ColumnTemplate::Quoted => quoted_cols(cols),
        ColumnTemplate::Extract => extract_args(cols),
    }
}

/// The piece of one column under one template.
spec fn template_piece(template: ColumnTemplate, col: Seq<char>) -> Seq<char> {
    match template {
        ColumnTemplate::ObjectArg => object_arg(col),
        ColumnTemplate::Quoted => dq(col),
        ColumnTemplate::Extract => extract_arg(col),
    }
}

/// Maps each column name through the template.
fn map_columns(cols: &Vec<String>, template: ColumnTemplate) -> (r: Vec<String>)
    ensures
        r.deep_view() == template_pieces(template, cols.deep_view()),
{
    let ghost v = cols.deep_view();
    let ghost want = template_pieces(template, v);
    let mut out: Vec<String> = Vec::new();
    let mut i: usize = 0;
    while i < cols.len()
        invariant
            v == cols.deep_view(),
            want == template_pieces(template, v),
            want.len() == v.len(),
            forall|k: int| 0 <= k < v.len() ==> #[trigger] want[k] == template_piece(template, v[k]),
            i <= cols.len(),
            out.deep_view() =~= want.take(i as int),
        decreases cols.len() - i,
    {
        let c = cols[i].as_str();
        let item = match template {
            ColumnTemplate::ObjectArg => {
                let mut s = String::from_str("'");
                s.append(c);
                s.append("', \"");
                s.append(c);
                s.append("\"");
                s
            },
            ColumnTemplate::Quoted => {
                let mut s = String::from_str("\"");
                s.append(c);
                s.append("\"");
                s
            },
            ColumnTemplate::Extract => {
                let mut s = String::from_str("json_extract(value, '$.");
                s.append(c);
                s.append("')");
                s
            },
        };
        let ghost before = out.deep_view();
        assert(v[i as int] == c@);
        assert(item@ == want[i as int]);
        out.push(item);
        assert(out.deep_view() =~= before.push(want[i as int]));
        assert(want.take(i + 1) =~= want.take(i as int).push(want[i as int]));
        i += 1;
    }
    assert(want.take(cols.len() as int) =~= want);
    out
}

/// The query that reads a table as one JSON array of objects, each object
/// holding every listed column under its own name. `None` when the table
/// has no columns, in which case the table is not dumped.
pub fn sqlite_dump_table_query(table: &str, cols: &Vec<String>) -> (r: Option<String>)
    ensures
        cols@.len() == 0 ==> r is None,
        cols@.len() > 0 ==> (r matches Some(q) && q@ == dump_query_spec(table@, cols.deep_view())),
{
    if cols.len() == 0 {
        return None;
    }
    let args = map_columns(cols, ColumnTemplate::ObjectArg);
    let obj_args = join_strings(&args, ", ");
    let mut q = String::from_str("SELECT COALESCE(json_group_array(json_object(");
    q.append(obj_args.as_str());
    q.append(")), '[]') AS json_data FROM \"");
    q.append(table);
    q.append("\"");
    Some(q)
}

/// Whether a dump file's contents hold rows to restore: not `[]` and not
/// empty once leading and trailing white space is removed.
pub open spec fn has_rows_spec(json_data: Seq<char>) -> bool {
    trim(json_data) != "[]"@ && trim(json_data).len() > 0
}

/// The statement that inserts the rows of the JSON array bound to `?1`
/// into the table, each listed column from the key of its name. `None`
/// when the table has no columns or the dump holds no rows, in which case
/// the table is not restored.
pub fn sqlite_restore_table_query(table: &str, cols: &Vec<String>, json_data: &str) -> (r: Option<
    String,
>)
    ensures
        (cols@.len() == 0 || !has_rows_spec(json_data@)) ==> r is None,
        (cols@.len() > 0 && has_rows_spec(json_data@)) ==> (r matches Some(q) && q@
            == restore_query_spec(table@, cols.deep_view())),
{
    let trimmed = trim_str(json_data);
    if cols.len() == 0 || str_equal(trimmed, "[]") || trimmed.unicode_len() == 0 {
        return None;
    }
    let names = map_columns(cols, ColumnTemplate::Quoted);
    let extracts = map_columns(cols, ColumnTemplate::Extract);
    let col_names = join_strings(&names, ", ");
    let col_extracts = join_strings(&extracts, ", ");
    let mut q = String::from_str("INSERT INTO \"");
    q.append(table);
    q.append("\" (");
    q.append(col_names.as_str());
    q.append(") SELECT ");
    q.append(col_extracts.as_str());
    q.append(" FROM json_each(?1)");
    Some(q)
}

/// A restore reads back what a dump wrote: for the same column list, the
/// i-th value the dump stores in each row object is the column `cols[i]`
/// under the key `cols[i]`, and the restore fills the column `cols[i]` from
/// the key `cols[i]`, for every column and no other.
pub proof fn lemma_restore_reads_dumped_keys(cols: Seq<Seq<char>>)
    ensures
        object_args(cols).len() == cols.len(),
        quoted_cols(cols).len() == cols.len(),
        extract_args(cols).len() == cols.len(),
        forall|i: int|
            0 <= i < cols.len() ==> {
                &&& #[trigger] object_args(cols)[i] == "'"@ + cols[i] + "', \""@ + cols[i] + "\""@
                &&& quoted_cols(cols)[i] == "\""@ + cols[i] + "\""@
                &&& extract_args(cols)[i] == "json_extract(value, '$."@ + cols[i] + "')"@
            },
{
}

} // verus!
