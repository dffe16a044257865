//! SQLite schema rewriting: table rebuilds and column type rewrites.
//!
//! SQLite cannot change a column's type or drop a constraint in place, so
//! these functions produce the statements that rebuild a table (or a column)
//! from the schema that `PRAGMA table_info` reported.

use vstd::prelude::*;
use vstd::string::*;
use crate::text::{join, join_strings, push_char, str_equal};

verus! {

/// `escape_quotes(s)` is `s` with every double quote doubled.
pub open spec fn escape_quotes(s: Seq<char>) -> Seq<char>
    decreases s.len(),
{
    if s.len() == 0 {
        seq![]
    } else {
        escape_quotes(s.drop_last()) + (if s.last() == '"' {
            seq!['"', '"']
        } else {
            seq![s.last()]
        })
    }
}

/// An SQLite identifier wrapped in double quotes, inner quotes doubled.
pub open spec fn quote_ident(s: Seq<char>) -> Seq<char> {
    seq!['"'] + escape_quotes(s) + seq!['"']
}

/// How SQLite reads the inside of a quoted identifier: every doubled
/// double quote stands for one double quote.
pub open spec fn unescape_quotes(s: Seq<char>) -> Seq<char>
    decreases s.len(),
{
    if s.len() == 0 {
        seq![]
    } else if s.len() >= 2 && s.last() == '"' && s[s.len() - 2] == '"' {
        unescape_quotes(s.take(s.len() - 2)).push('"')
    } else {
        unescape_quotes(s.drop_last()).push(s.last())
    }
}

/// The identifier that a quoted identifier names: the outer quotes
/// removed, doubled quotes read as one.
pub open spec fn unquote_ident(q: Seq<char>) -> Seq<char> {
    unescape_quotes(q.subrange(1, q.len() - 1))
}

proof fn lemma_unescape_escape(s: Seq<char>)
    ensures
        unescape_quotes(escape_quotes(s)) == s,
    decreases s.len(),
{
    if s.len() > 0 {
        let init = s.drop_last();
        lemma_unescape_escape(init);
        let e = escape_quotes(s);
        if s.last() == '"' {
            assert(e.take(e.len() - 2) =~= escape_quotes(init));
        } else {
            assert(e.drop_last() =~= escape_quotes(init));
        }
        assert(init.push(s.last()) =~= s);
    }
}

/// Quoting an identifier loses nothing: the identifier SQLite reads from
/// `sqlite_quote_ident(s)` is `s` itself, so distinct identifiers never
/// quote to the same text.
pub proof fn lemma_quote_ident_roundtrip(s: Seq<char>, t: Seq<char>)
    ensures
        unquote_ident(quote_ident(s)) == s,
        quote_ident(s) == quote_ident(t) ==> s == t,
{
    let q = quote_ident(s);
    assert(q.subrange(1, q.len() - 1) =~= escape_quotes(s));
    lemma_unescape_escape(s);
    let qt = quote_ident(t);
    assert(qt.subrange(1, qt.len() - 1) =~= escape_quotes(t));
    lemma_unescape_escape(t);
}

/// Quotes an SQLite identifier: wraps it in double quotes and doubles
/// every double quote inside it.
pub fn sqlite_quote_ident(ident: &str) -> (r: String)
    ensures
        r@ == quote_ident(ident@),
{
    let mut out = String::new();
    push_char(&mut out, '"');
    let n = ident.unicode_len();
    let mut i: usize = 0;
    while i < n
        invariant
            n == ident@.len(),
            i <= n,
            out@ == seq!['"'] + escape_quotes(ident@.take(i as int)),
        decreases n - i,
    {
        let c = ident.get_char(i);
        if c == '"' {
            push_char(&mut out, '"');
            push_char(&mut out, '"');
        } else {
            push_char(&mut out, c);
        }
        assert(ident@.take(i + 1).drop_last() =~= ident@.take(i as int));
        i += 1;
    }
    push_char(&mut out, '"');
    assert(ident@.take(n as int) =~= ident@);
    out
}

/// One column of a table as SQLite describes it: a row of
/// `PRAGMA table_info`.
#[derive(Debug)]
pub struct SqliteColumnInfo {
    pub name: String,
    pub column_type: String,
    pub not_null: bool,
    pub default_value: Option<String>,
    pub pk_position: i64,
}

/// The mathematical value of a [`SqliteColumnInfo`].
pub struct ColumnSpec {
    pub name: Seq<char>,
    pub column_type: Seq<char>,
    pub not_null: bool,
    pub default_value: Option<Seq<char>>,
    pub pk_position: int,
}

impl View for SqliteColumnInfo {
    type V = ColumnSpec;

    open spec fn view(&self) -> ColumnSpec {
        ColumnSpec {
            name: self.name@,
            column_type: self.column_type@,
            not_null: self.not_null,
            default_value: match self.default_value {
                Some(d) => Some(d@),
                None => None,
            },
            pk_position: self.pk_position as int,
        }
    }
}

impl SqliteColumnInfo {
    /// The column described by one `PRAGMA table_info` row: `notnull` is 1
    /// for a `NOT NULL` column, `pk` the column's position in the primary
    /// key (0 when it is not part of it).
    pub fn from_pragma_row(
        name: String,
        column_type: String,
        notnull: i64,
        dflt_value: Option<String>,
        pk: i64,
    ) -> (r: SqliteColumnInfo)
        ensures
            r.name@ == name@,
            r.column_type@ == column_type@,
            r.not_null == (notnull == 1),
            r.default_value == dflt_value,
            r.pk_position == pk,
    {
        SqliteColumnInfo {
            name,
            column_type,
            not_null: notnull == 1,
            default_value: dflt_value,
            pk_position: pk,
        }
    }
}

/// The columns as mathematical values.
pub open spec fn columns_view(cols: Seq<SqliteColumnInfo>) -> Seq<ColumnSpec> {
    cols.map_values(|c: SqliteColumnInfo| c@)
}

/// Whether some column has the given name.
pub open spec fn has_column(cols: Seq<ColumnSpec>, name: Seq<char>) -> bool {
    exists|i: int| 0 <= i < cols.len() && #[trigger] cols[i].name == name
}

/// A column definition of `CREATE TABLE`: quoted name, type, then the
/// `NOT NULL`, `DEFAULT`, `PRIMARY KEY` and `UNIQUE` clauses that apply.
pub open spec fn column_def(
    col: ColumnSpec,
    column_type: Seq<char>,
    primary_key: bool,
    unique: bool,
) -> Seq<char> {
    quote_ident(col.name) + " "@ + column_type + (if col.not_null {
        " NOT NULL"@
    } else {
        seq![]
    }) + (match col.default_value {
        Some(d) => " DEFAULT "@ + d,
        None => seq![],
    }) + (if primary_key {
        " PRIMARY KEY"@
    } else {
        seq![]
    }) + (if unique {
        " UNIQUE"@
    } else {
        seq![]
    })
}

/// How a table rebuild changes its columns.
pub enum RebuildMode {
    /// Every column keeps its type; the key columns are declared
    /// `PRIMARY KEY`.
    Keep,
    /// The `id` column gets the given type and is declared `PRIMARY KEY`
    /// exactly when the flag holds; the other columns are kept.
    IdSwap(Seq<char>, bool),
    /// The named column gets the given type and is declared `UNIQUE` when
    /// the first flag holds; the primary key is declared again unless the
    /// second flag (skip the primary key) holds.
    Retype(Seq<char>, Seq<char>, bool, bool),
}

/// Whether a column is declared `PRIMARY KEY` in the rebuilt table.
pub open spec fn is_key(mode: RebuildMode, col: ColumnSpec) -> bool {
    match mode {
        RebuildMode::Keep => col.pk_position > 0,
        RebuildMode::IdSwap(_, has_primary_key) => if col.name == "id"@ {
            has_primary_key
        } else {
            col.pk_position > 0
        },
        RebuildMode::Retype(_, _, _, skip_pk) => !skip_pk && col.pk_position > 0,
    }
}

/// The type of a column in the rebuilt table.
pub open spec fn rebuilt_type(mode: RebuildMode, col: ColumnSpec) -> Seq<char> {
    match mode {
        RebuildMode::Keep => col.column_type,
        RebuildMode::IdSwap(id_type, _) => if col.name == "id"@ {
            id_type
        } else {
            col.column_type
        },
        RebuildMode::Retype(column, new_type, _, _) => if col.name == column {
            new_type
        } else {
            col.column_type
        },
    }
}

/// Whether a column is declared `UNIQUE` in the rebuilt table: only the
/// retyped column, and only when asked. A rebuild reads nothing but
/// `PRAGMA table_info`, so no other `UNIQUE` constraint is declared again.
pub open spec fn rebuilt_unique(mode: RebuildMode, col: ColumnSpec) -> bool {
    match mode {
        RebuildMode::Retype(column, _, unique, _) => unique && col.name == column,
        _ => false,
    }
}

/// The definition of a column in the rebuilt table: its new type, its
/// `NOT NULL` and `DEFAULT` clauses, then `PRIMARY KEY` and `UNIQUE` where
/// they apply. A key is declared on each of its columns.
pub open spec fn rebuilt_def(mode: RebuildMode, col: ColumnSpec) -> Seq<char> {
    column_def(col, rebuilt_type(mode, col), is_key(mode, col), rebuilt_unique(mode, col))
}

/// The body of `CREATE TABLE` for a rebuild: one definition per column, in
/// table order.
pub open spec fn rebuilt_defs(mode: RebuildMode, cols: Seq<ColumnSpec>) -> Seq<Seq<char>> {
    cols.map_values(|c: ColumnSpec| rebuilt_def(mode, c))
}

/// The value a full table copy selects for a column: the retyped column's
/// value read as text and lower-cased (NULL stays NULL), every other column
/// as it is.
pub open spec fn copy_select(col: ColumnSpec, column: Seq<char>) -> Seq<char> {
    if col.name == column {
        "CASE WHEN "@ + quote_ident(col.name) + " IS NULL THEN NULL ELSE lower(CAST("@
            + quote_ident(col.name) + " AS TEXT)) END"@
    } else {
        quote_ident(col.name)
    }
}

/// The quoted names of the columns.
pub open spec fn quoted_names(cols: Seq<ColumnSpec>) -> Seq<Seq<char>> {
    cols.map_values(|c: ColumnSpec| quote_ident(c.name))
}

/// Rename the table away, create it anew with `defs`, copy the rows back
/// column by column, drop the renamed table.
pub open spec fn rebuild_table_sql(
    table: Seq<char>,
    tmp_table: Seq<char>,
    defs: Seq<Seq<char>>,
    names: Seq<Seq<char>>,
) -> Seq<char> {
    let qt = quote_ident(table);
    let qtmp = quote_ident(tmp_table);
    "\n\t\t\tPRAGMA foreign_keys=OFF;\n\t\t\tALTER TABLE "@ + qt + " RENAME TO "@ + qtmp
        + ";\n\t\t\tCREATE TABLE "@ + qt + " ("@ + join(defs, ", "@)
        + ");\n\t\t\tINSERT INTO "@ + qt + " ("@ + join(names, ", "@) + ") SELECT "@ + join(
        names,
        ", "@,
    ) + " FROM "@ + qtmp + ";\n\t\t\tDROP TABLE "@ + qtmp
        + ";\n\t\t\tPRAGMA foreign_keys=ON;\n\t\t"@
}

/// Create a new table with `defs`, copy the rows into it selecting
/// `selects`, drop the old table, give the new one the old name.
pub open spec fn copy_table_sql(
    table: Seq<char>,
    tmp_table: Seq<char>,
    defs: Seq<Seq<char>>,
    names: Seq<Seq<char>>,
    selects: Seq<Seq<char>>,
) -> Seq<char> {
    let qt = quote_ident(table);
    let qtmp = quote_ident(tmp_table);
    "\n\t\t\tPRAGMA foreign_keys=OFF;\n\t\t\tCREATE TABLE "@ + qtmp + " ("@ + join(defs, ", "@)
        + ");\n\t\t\tINSERT INTO "@ + qtmp + " ("@ + join(names, ", "@) + ") SELECT "@ + join(
        selects,
        ", "@,
    ) + " FROM "@ + qt + ";\n\t\t\tDROP TABLE "@ + qt + ";\n\t\t\tALTER TABLE "@ + qtmp
        + " RENAME TO "@ + qt + ";\n\t\t\tPRAGMA foreign_keys=ON;\n\t\t"@
}

/// The `PRAGMA table_info` query that lists a table's columns.
pub open spec fn table_info_sql(table: Seq<char>) -> Seq<char> {
    "PRAGMA table_info("@ + quote_ident(table) + ")"@
}

/// Builds the `PRAGMA table_info` query for a table.
pub fn sqlite_table_info_query(table_name: &str) -> (r: String)
    ensures
        r@ == table_info_sql(table_name@),
{
    let mut sql = String::from_str("PRAGMA table_info(");
    let q = sqlite_quote_ident(table_name);
    sql.append(q.as_str());
    sql.append(")");
    sql
}

/// Builds one column definition.
fn column_definition(col: &SqliteColumnInfo, column_type: &str, primary_key: bool, unique: bool) -> (r:
    String)
    ensures
        r@ == column_def(col@, column_type@, primary_key, unique),
{
    let mut def = sqlite_quote_ident(col.name.as_str());
    def.append(" ");
    def.append(column_type);
    if col.not_null {
        def.append(" NOT NULL");
    }
    match &col.default_value {
        Some(d) => {
            def.append(" DEFAULT ");
            def.append(d.as_str());
        },
        None => {},
    }
    if primary_key {
        def.append(" PRIMARY KEY");
    }
    if unique {
        def.append(" UNIQUE");
    }
    def
}

/// Whether some column has the given name.
pub fn has_column_named(cols: &Vec<SqliteColumnInfo>, name: &str) -> (r: bool)
    ensures
        r == has_column(columns_view(cols@), name@),
{
    let ghost cv = columns_view(cols@);
    let mut i: usize = 0;
    while i < cols.len()
        invariant
            cv == columns_view(cols@),
            i <= cols.len(),
            forall|j: int| 0 <= j < i ==> cv[j].name != name@,
        decreases cols.len() - i,
    {
        if str_equal(cols[i].name.as_str(), name) {
            assert(cv[i as int].name == name@);
            return true;
        }
        i += 1;
    }
    false
}

/// A rebuild mode as the executable code holds it.
enum Rebuild<'a> {
    Keep,
    IdSwap(&'a str, bool),
    Retype(&'a str, &'a str, bool, bool),
}

impl<'a> View for Rebuild<'a> {
    type V = RebuildMode;

    closed spec fn view(&self) -> RebuildMode {
        match self {
            Rebuild::Keep => RebuildMode::Keep,
            Rebuild::IdSwap(t, b) => RebuildMode::IdSwap(t@, *b),
            Rebuild::Retype(c, t, u, s) => RebuildMode::Retype(c@, t@, *u, *s),
        }
    }
}

/// Whether a column is declared `PRIMARY KEY` in the rebuilt table.
fn column_is_key(col: &SqliteColumnInfo, mode: &Rebuild) -> (r: bool)
    ensures
        r == is_key(mode@, col@),
{
    match mode {
        Rebuild::Keep => col.pk_position > 0,
        Rebuild::IdSwap(_, has_primary_key) => {
            if str_equal(col.name.as_str(), "id") {
                *has_primary_key
            } else {
                col.pk_position > 0
            }
        },
        Rebuild::Retype(_, _, _, skip_pk) => !*skip_pk && col.pk_position > 0,
    }
}

/// The definition of one column in the rebuilt table.
fn rebuilt_definition(col: &SqliteColumnInfo, mode: &Rebuild) -> (r: String)
    ensures
        r@ == rebuilt_def(mode@, col@),
{
    let key = column_is_key(col, mode);
    match mode {
        Rebuild::Keep => column_definition(col, col.column_type.as_str(), key, false),
        Rebuild::IdSwap(id_type, _) => {
            let ty = if str_equal(col.name.as_str(), "id") {
                *id_type
            } else {
                col.column_type.as_str()
            };
            column_definition(col, ty, key, false)
        },
        Rebuild::Retype(column, new_type, unique, _) => {
            let is_target = str_equal(col.name.as_str(), column);
            let ty = if is_target {
                *new_type
            } else {
                col.column_type.as_str()
            };
            column_definition(col, ty, key, *unique && is_target)
        },
    }
}

/// The `CREATE TABLE` body and the quoted column names of a rebuild.
fn rebuild_parts(cols: &Vec<SqliteColumnInfo>, mode: &Rebuild) -> (r: (Vec<String>, Vec<String>))
    ensures
        r.0.deep_view() == rebuilt_defs(mode@, columns_view(cols@)),
        r.1.deep_view() == quoted_names(columns_view(cols@)),
{
    let ghost cv = columns_view(cols@);
    let ghost want_defs = rebuilt_defs(mode@, cv);
    let mut defs: Vec<String> = Vec::new();
    let mut names: Vec<String> = Vec::new();
    let mut i: usize = 0;
    while i < cols.len()
        invariant
            cv == columns_view(cols@),
            want_defs == rebuilt_defs(mode@, cv),
            i <= cols.len(),
            defs.deep_view() =~= want_defs.take(i as int),
            names.deep_view() =~= quoted_names(cv).take(i as int),
        decreases cols.len() - i,
    {
        let col = &cols[i];
        let ghost d0 = defs.deep_view();
        let ghost n0 = names.deep_view();
        let name = sqlite_quote_ident(col.name.as_str());
        let def = rebuilt_definition(col, mode);
        proof {
            assert(cv[i as int] == col@);
        }
        names.push(name);
        defs.push(def);
        proof {
            assert(defs.deep_view() =~= d0.push(want_defs[i as int]));
            assert(names.deep_view() =~= n0.push(quoted_names(cv)[i as int]));
            assert(want_defs.take(i + 1) =~= want_defs.take(i as int).push(want_defs[i as int]));
            assert(quoted_names(cv).take(i + 1) =~= quoted_names(cv).take(i as int).push(
                quoted_names(cv)[i as int],
            ));
        }
        i += 1;
    }
    assert(want_defs.take(cols.len() as int) =~= want_defs);
    assert(quoted_names(cv).take(cols.len() as int) =~= quoted_names(cv));
    (defs, names)
}

/// The values a full table copy selects, column by column.
fn copy_selects(cols: &Vec<SqliteColumnInfo>, column_name: &str) -> (r: Vec<String>)
    ensures
        r.deep_view() == columns_view(cols@).map_values(|c: ColumnSpec| copy_select(c, column_name@)),
{
    let ghost cv = columns_view(cols@);
    let ghost want = cv.map_values(|c: ColumnSpec| copy_select(c, column_name@));
    let mut selects: Vec<String> = Vec::new();
    let mut i: usize = 0;
    while i < cols.len()
        invariant
            cv == columns_view(cols@),
            want == cv.map_values(|c: ColumnSpec| copy_select(c, column_name@)),
            i <= cols.len(),
            selects.deep_view() =~= want.take(i as int),
        decreases cols.len() - i,
    {
        let col = &cols[i];
        let ghost s0 = selects.deep_view();
        let name = sqlite_quote_ident(col.name.as_str());
        let select = if str_equal(col.name.as_str(), column_name) {
            let mut e = String::from_str("CASE WHEN ");
            e.append(name.as_str());
            e.append(" IS NULL THEN NULL ELSE lower(CAST(");
            e.append(name.as_str());
            e.append(" AS TEXT)) END");
            e
        } else {
            name
        };
        proof {
            assert(cv[i as int] == col@);
        }
        selects.push(select);
        proof {
            assert(selects.deep_view() =~= s0.push(want[i as int]));
            assert(want.take(i + 1) =~= want.take(i as int).push(want[i as int]));
        }
        i += 1;
    }
    assert(want.take(cols.len() as int) =~= want);
    selects
}

/// The statement that rebuilds `table_name` from its `PRAGMA table_info`
/// columns so that its `id` column has type `id_type` and is declared
/// `PRIMARY KEY` exactly when `has_primary_key` holds; every other column
/// keeps its type, `NOT NULL` and `DEFAULT` and is declared `PRIMARY KEY`
/// when it is in the current key. Nothing else is declared again (no
/// `UNIQUE`, `CHECK` or `FOREIGN KEY` clause); when two columns end up
/// declared `PRIMARY KEY`, SQLite refuses the `CREATE TABLE`. `None` when
/// the table has no columns (it does not exist): nothing is to be done.
pub fn sqlite_set_id_primary_key(
    table_name: &str,
    cols: &Vec<SqliteColumnInfo>,
    id_type: &str,
    has_primary_key: bool,
) -> (r: Option<String>)
    ensures
        cols@.len() == 0 ==> r is None,
        cols@.len() > 0 ==> (r matches Some(sql) && sql@ == rebuild_table_sql(
            table_name@,
            table_name@ + "__pk_swap_tmp"@,
            rebuilt_defs(RebuildMode::IdSwap(id_type@, has_primary_key), columns_view(cols@)),
            quoted_names(columns_view(cols@)),
        )),
{
    if cols.len() == 0 {
        return None;
    }
    let mode = Rebuild::IdSwap(id_type, has_primary_key);
    let (defs, names) = rebuild_parts(cols, &mode);
    assert(mode@ == RebuildMode::IdSwap(id_type@, has_primary_key));
    let mut tmp = String::from_str(table_name);
    tmp.append("__pk_swap_tmp");
    Some(rebuild_sql(table_name, tmp.as_str(), &defs, &names))
}

/// The statement that rebuilds `table_name` from its `PRAGMA table_info`
/// columns without any `FOREIGN KEY` clause, which drops every foreign key
/// constraint of the table: each column keeps its name, type, `NOT NULL`
/// and `DEFAULT`, and is declared `PRIMARY KEY` when it is in the key.
/// `None` when the table has no columns.
pub fn sqlite_drop_foreign_keys(table_name: &str, cols: &Vec<SqliteColumnInfo>) -> (r: Option<
    String,
>)
    ensures
        cols@.len() == 0 ==> r is None,
        cols@.len() > 0 ==> (r matches Some(sql) && sql@ == rebuild_table_sql(
            table_name@,
            table_name@ + "__drop_fk_tmp"@,
            rebuilt_defs(RebuildMode::Keep, columns_view(cols@)),
            quoted_names(columns_view(cols@)),
        )),
{
    if cols.len() == 0 {
        return None;
    }
    let mode = Rebuild::Keep;
    let (defs, names) = rebuild_parts(cols, &mode);
    assert(mode@ == RebuildMode::Keep);
    let mut tmp = String::from_str(table_name);
    tmp.append("__drop_fk_tmp");
    Some(rebuild_sql(table_name, tmp.as_str(), &defs, &names))
}

/// The statement that retypes `column_name` of `table_name` to `uuid_text`
/// by a full table copy, built from the table's `PRAGMA table_info`
/// columns: a new table is created in which the column has type
/// `uuid_text` (and is declared `UNIQUE` when `unique` holds), every column
/// keeps its `NOT NULL` and `DEFAULT`, and each key column is declared
/// `PRIMARY KEY` unless `skip_pk` holds; every row is copied with the
/// column's value read as text and lower-cased; the old table is dropped
/// and the new one renamed. `None` when the table has no columns.
pub fn sqlite_alter_column_type_full_copy(
    table_name: &str,
    column_name: &str,
    unique: bool,
    skip_pk: bool,
    cols: &Vec<SqliteColumnInfo>,
) -> (r: Option<String>)
    ensures
        cols@.len() == 0 ==> r is None,
        cols@.len() > 0 ==> (r matches Some(sql) && sql@ == copy_table_sql(
            table_name@,
            table_name@ + "__col_copy_tmp"@,
            rebuilt_defs(
                RebuildMode::Retype(column_name@, "uuid_text"@, unique, skip_pk),
                columns_view(cols@),
            ),
            quoted_names(columns_view(cols@)),
            columns_view(cols@).map_values(|c: ColumnSpec| copy_select(c, column_name@)),
        )),
{
    if cols.len() == 0 {
        return None;
    }
    let mode = Rebuild::Retype(column_name, "uuid_text", unique, skip_pk);
    let (defs, names) = rebuild_parts(cols, &mode);
    assert(mode@ == RebuildMode::Retype(column_name@, "uuid_text"@, unique, skip_pk));
    let selects = copy_selects(cols, column_name);
    let mut tmp = String::from_str(table_name);
    tmp.append("__col_copy_tmp");
    let qt = sqlite_quote_ident(table_name);
    let qtmp = sqlite_quote_ident(tmp.as_str());
    let column_defs = join_strings(&defs, ", ");
    let columns = join_strings(&names, ", ");
    let select_exprs = join_strings(&selects, ", ");
    let mut sql = String::from_str("\n\t\t\tPRAGMA foreign_keys=OFF;\n\t\t\tCREATE TABLE ");
    sql.append(qtmp.as_str());
    sql.append(" (");
    sql.append(column_defs.as_str());
    sql.append(");\n\t\t\tINSERT INTO ");
    sql.append(qtmp.as_str());
    sql.append(" (");
    sql.append(columns.as_str());
    sql.append(") SELECT ");
    sql.append(select_exprs.as_str());
    sql.append(" FROM ");
    sql.append(qt.as_str());
    sql.append(";\n\t\t\tDROP TABLE ");
    sql.append(qt.as_str());
    sql.append(";\n\t\t\tALTER TABLE ");
    sql.append(qtmp.as_str());
    sql.append(" RENAME TO ");
    sql.append(qt.as_str());
    sql.append(";\n\t\t\tPRAGMA foreign_keys=ON;\n\t\t");
    Some(sql)
}

/// Assembles the rebuild statement from its parts.
fn rebuild_sql(table_name: &str, tmp_table: &str, defs: &Vec<String>, names: &Vec<String>) -> (r:
    String)
    ensures
        r@ == rebuild_table_sql(table_name@, tmp_table@, defs.deep_view(), names.deep_view()),
{
    let qt = sqlite_quote_ident(table_name);
    let qtmp = sqlite_quote_ident(tmp_table);
    let column_defs = join_strings(defs, ", ");
    let columns = join_strings(names, ", ");
    let mut sql = String::from_str("\n\t\t\tPRAGMA foreign_keys=OFF;\n\t\t\tALTER TABLE ");
    sql.append(qt.as_str());
    sql.append(" RENAME TO ");
    sql.append(qtmp.as_str());
    sql.append(";\n\t\t\tCREATE TABLE ");
    sql.append(qt.as_str());
    sql.append(" (");
    sql.append(column_defs.as_str());
    sql.append(");\n\t\t\tINSERT INTO ");
    sql.append(qt.as_str());
    sql.append(" (");
    sql.append(columns.as_str());
    sql.append(") SELECT ");
    sql.append(columns.as_str());
    sql.append(" FROM ");
    sql.append(qtmp.as_str());
    sql.append(";\n\t\t\tDROP TABLE ");
    sql.append(qtmp.as_str());
    sql.append(";\n\t\t\tPRAGMA foreign_keys=ON;\n\t\t");
    sql
}

/// One step of a column rewrite, run in order against the database.
#[derive(Debug, PartialEq, Eq)]
pub enum MigrationStep {
    /// Run the statement; a failure aborts the rewrite.
    Execute(String),
    /// Run the statement; a failure is ignored.
    ExecuteIgnoringErrors(String),
    /// Rebuild the table (as [`sqlite_set_id_primary_key`] does, from the
    /// columns it has at that moment) so that its `id` column has the given
    /// type and is the primary key exactly when the flag holds.
    SetIdPrimaryKey(String, bool),
}

/// The mathematical value of a [`MigrationStep`].
pub enum StepSpec {
    Execute(Seq<char>),
    ExecuteIgnoringErrors(Seq<char>),
    SetIdPrimaryKey(Seq<char>, bool),
}

impl View for MigrationStep {
    type V = StepSpec;

    open spec fn view(&self) -> StepSpec {
        match self {
            MigrationStep::Execute(s) => StepSpec::Execute(s@),
            MigrationStep::ExecuteIgnoringErrors(s) => StepSpec::ExecuteIgnoringErrors(s@),
            MigrationStep::SetIdPrimaryKey(t, b) => StepSpec::SetIdPrimaryKey(t@, *b),
        }
    }
}

/// The steps as mathematical values.
pub open spec fn steps_view(steps: Seq<MigrationStep>) -> Seq<StepSpec> {
    steps.map_values(|s: MigrationStep| s@)
}

/// The name SQLite gives the first automatic index of a table, the one
/// behind a column's `UNIQUE` constraint.
pub open spec fn autoindex_name(table: Seq<char>) -> Seq<char> {
    "sqlite_autoindex_"@ + table + "_1"@
}

/// Adds a temporary column of type `new_type`, fills it with `open column
/// close` (NULL stays NULL), drops the column and renames the temporary one
/// to the column's name.
pub open spec fn rewrite_column_sql(
    table: Seq<char>,
    column: Seq<char>,
    temp_column: Seq<char>,
    new_type: Seq<char>,
    open: Seq<char>,
    close: Seq<char>,
) -> Seq<char> {
    let qt = quote_ident(table);
    let qc = quote_ident(column);
    let qtemp = quote_ident(temp_column);
    "\n\t\t\tPRAGMA foreign_keys=OFF;\n\t\t\tALTER TABLE "@ + qt + " ADD COLUMN "@ + qtemp + " "@
        + new_type + ";\n\t\t\tUPDATE "@ + qt + "\n\t\t\tSET "@ + qtemp
        + " = CASE\n\t\t\t\tWHEN "@ + qc + " IS NULL THEN NULL\n\t\t\t\tELSE "@ + open + qc
        + close + "\n\t\t\tEND;\n\t\t\tALTER TABLE "@ + qt + " DROP COLUMN "@ + qc
        + ";\n\t\t\tALTER TABLE "@ + qt + " RENAME COLUMN "@ + qtemp + " TO "@ + qc
        + ";\n\t\t\tPRAGMA foreign_keys=ON;\n\t\t"@
}

/// The steps that rewrite a column in place through a temporary column:
/// drop a temporary column left over by an earlier failed attempt; for the
/// `id` column, take the primary key off first and put it back after; for a
/// unique column, try to drop its automatic index first and to create a
/// unique index of that name after, ignoring failures. SQLite reserves
/// index names that begin with `sqlite_`, so both index statements fail
/// (and are ignored); it also refuses to drop a column that carries a
/// `UNIQUE` constraint, so on such a column the rewrite itself fails.
pub open spec fn rewrite_steps(
    table: Seq<char>,
    column: Seq<char>,
    unique: bool,
    temp_column: Seq<char>,
    leftover: bool,
    rewrite: Seq<char>,
) -> Seq<StepSpec> {
    let qt = quote_ident(table);
    let index = quote_ident(autoindex_name(table));
    let is_id = column == "id"@;
    (if leftover {
        seq![
            StepSpec::ExecuteIgnoringErrors(
                "ALTER TABLE "@ + qt + " DROP COLUMN "@ + quote_ident(temp_column),
            ),
        ]
    } else {
        seq![]
    }) + (if is_id {
        seq![StepSpec::SetIdPrimaryKey("uuid_text"@, false)]
    } else {
        seq![]
    }) + (if unique {
        seq![StepSpec::ExecuteIgnoringErrors("DROP INDEX IF EXISTS "@ + index)]
    } else {
        seq![]
    }) + seq![StepSpec::Execute(rewrite)] + (if is_id {
        seq![StepSpec::SetIdPrimaryKey("uuid_text"@, true)]
    } else {
        seq![]
    }) + (if unique {
        seq![
            StepSpec::ExecuteIgnoringErrors(
                "CREATE UNIQUE INDEX "@ + index + " ON "@ + qt + " ("@ + quote_ident(column)
                    + ")"@,
            ),
        ]
    } else {
        seq![]
    })
}

/// The steps that convert a text column to `uuid_text`, lower-casing its
/// values. `cols` are the table's columns before the rewrite.
pub fn sqlite_alter_column_type(
    table_name: &str,
    column_name: &str,
    unique: bool,
    cols: &Vec<SqliteColumnInfo>,
) -> (r: Vec<MigrationStep>)
    ensures
        steps_view(r@) == rewrite_steps(
            table_name@,
            column_name@,
            unique,
            column_name@ + "__tmp_uuid"@,
            has_column(columns_view(cols@), column_name@ + "__tmp_uuid"@),
            rewrite_column_sql(
                table_name@,
                column_name@,
                column_name@ + "__tmp_uuid"@,
                "uuid_text"@,
                "lower("@,
                ")"@,
            ),
        ),
{
    let mut temp = String::from_str(column_name);
    temp.append("__tmp_uuid");
    column_rewrite(table_name, column_name, unique, cols, temp.as_str(), "uuid_text", "lower(", ")")
}

/// The steps that convert a `uuid_text` column back to `TEXT`, casting its
/// values to text. `cols` are the table's columns before the rewrite.
pub fn sqlite_revert_column_type(
    table_name: &str,
    column_name: &str,
    unique: bool,
    cols: &Vec<SqliteColumnInfo>,
) -> (r: Vec<MigrationStep>)
    ensures
        steps_view(r@) == rewrite_steps(
            table_name@,
            column_name@,
            unique,
            column_name@ + "__tmp_text"@,
            has_column(columns_view(cols@), column_name@ + "__tmp_text"@),
            rewrite_column_sql(
                table_name@,
                column_name@,
                column_name@ + "__tmp_text"@,
                "TEXT"@,
                "CAST("@,
                " AS TEXT)"@,
            ),
        ),
{
    let mut temp = String::from_str(column_name);
    temp.append("__tmp_text");
    column_rewrite(table_name, column_name, unique, cols, temp.as_str(), "TEXT", "CAST(", " AS TEXT)")
}

/// The steps of an in-place column rewrite through `temp_column`.
fn column_rewrite(
    table_name: &str,
    column_name: &str,
    unique: bool,
    cols: &Vec<SqliteColumnInfo>,
    temp_column: &str,
    new_type: &str,
    open: &str,
    close: &str,
) -> (r: Vec<MigrationStep>)
    ensures
        steps_view(r@) == rewrite_steps(
            table_name@,
            column_name@,
            unique,
            temp_column@,
            has_column(columns_view(cols@), temp_column@),
            rewrite_column_sql(table_name@, column_name@, temp_column@, new_type@, open@, close@),
        ),
{
    let qt = sqlite_quote_ident(table_name);
    let qc = sqlite_quote_ident(column_name);
    let qtemp = sqlite_quote_ident(temp_column);
    let mut index_name = String::from_str("sqlite_autoindex_");
    index_name.append(table_name);
    index_name.append("_1");
    let qindex = sqlite_quote_ident(index_name.as_str());
    let is_id = str_equal(column_name, "id");
    let leftover = has_column_named(cols, temp_column);
    let ghost want = rewrite_steps(
        table_name@,
        column_name@,
        unique,
        temp_column@,
        leftover,
        rewrite_column_sql(table_name@, column_name@, temp_column@, new_type@, open@, close@),
    );

    let mut steps: Vec<MigrationStep> = Vec::new();
    if leftover {
        let mut sql = String::from_str("ALTER TABLE ");
        sql.append(qt.as_str());
        sql.append(" DROP COLUMN ");
        sql.append(qtemp.as_str());
        steps.push(MigrationStep::ExecuteIgnoringErrors(sql));
    }
    if is_id {
        steps.push(MigrationStep::SetIdPrimaryKey(String::from_str("uuid_text"), false));
    }
    if unique {
        let mut sql = String::from_str("DROP INDEX IF EXISTS ");
        sql.append(qindex.as_str());
        steps.push(MigrationStep::ExecuteIgnoringErrors(sql));
    }
    let mut sql = String::from_str("\n\t\t\tPRAGMA foreign_keys=OFF;\n\t\t\tALTER TABLE ");
    sql.append(qt.as_str());
    sql.append(" ADD COLUMN ");
    sql.append(qtemp.as_str());
    sql.append(" ");
    sql.append(new_type);
    sql.append(";\n\t\t\tUPDATE ");
    sql.append(qt.as_str());
    sql.append("\n\t\t\tSET ");
    sql.append(qtemp.as_str());
    sql.append(" = CASE\n\t\t\t\tWHEN ");
    sql.append(qc.as_str());
    sql.append(" IS NULL THEN NULL\n\t\t\t\tELSE ");
    sql.append(open);
    sql.append(qc.as_str());
    sql.append(close);
    sql.append("\n\t\t\tEND;\n\t\t\tALTER TABLE ");
    sql.append(qt.as_str());
    sql.append(" DROP COLUMN ");
    sql.append(qc.as_str());
    sql.append(";\n\t\t\tALTER TABLE ");
    sql.append(qt.as_str());
    sql.append(" RENAME COLUMN ");
    sql.append(qtemp.as_str());
    sql.append(" TO ");
    sql.append(qc.as_str());
    sql.append(";\n\t\t\tPRAGMA foreign_keys=ON;\n\t\t");
    steps.push(MigrationStep::Execute(sql));
    if is_id {
        steps.push(MigrationStep::SetIdPrimaryKey(String::from_str("uuid_text"), true));
    }
    if unique {
        let mut sql = String::from_str("CREATE UNIQUE INDEX ");
        sql.append(qindex.as_str());
        sql.append(" ON ");
        sql.append(qt.as_str());
        sql.append(" (");
        sql.append(qc.as_str());
        sql.append(")");
        steps.push(MigrationStep::ExecuteIgnoringErrors(sql));
    }
    assert(steps_view(steps@) =~= want);
    steps
}

/// The query that finds whether `index_name` is an index of `table_name`.
pub fn sqlite_index_exists_query(table_name: &str, index_name: &str) -> (r: String)
    ensures
        r@ == "\n\t\t\tSELECT 1\n\t\t\tFROM sqlite_master\n\t\t\tWHERE type = \'index\'\n\t\t\t\tAND name = "@
            + quote_ident(index_name@) + "\n\t\t\t\tAND tbl_name = "@ + quote_ident(table_name@)
            + "\n\t\t\tLIMIT 1\n\t\t"@,
{
    let mut sql = String::from_str(
        "\n\t\t\tSELECT 1\n\t\t\tFROM sqlite_master\n\t\t\tWHERE type = \'index\'\n\t\t\t\tAND name = ",
    );
    let qi = sqlite_quote_ident(index_name);
    let qt = sqlite_quote_ident(table_name);
    sql.append(qi.as_str());
    sql.append("\n\t\t\t\tAND tbl_name = ");
    sql.append(qt.as_str());
    sql.append("\n\t\t\tLIMIT 1\n\t\t");
    sql
}

/// What to run once the existence query of [`sqlite_index_exists_query`]
/// has answered: the statement that drops the index when it exists,
/// nothing when it does not.
pub fn sqlite_drop_indexes(index_name: &str, index_exists: bool) -> (r: Option<String>)
    ensures
        !index_exists ==> r is None,
        index_exists ==> (r matches Some(sql) && sql@ == "DROP INDEX IF EXISTS "@ + quote_ident(
            index_name@,
        )),
{
    if !index_exists {
        return None;
    }
    let mut sql = String::from_str("DROP INDEX IF EXISTS ");
    let qi = sqlite_quote_ident(index_name);
    sql.append(qi.as_str());
    Some(sql)
}

/// The columns that `PRAGMA table_info` reports for a table after it is
/// rebuilt from `cols`: each column keeps its name, `NOT NULL` and
/// `DEFAULT`, has its rebuilt type, and is at key position 1 when it is
/// declared `PRIMARY KEY` (0 otherwise). This is what SQLite reports as
/// long as at most one column is declared `PRIMARY KEY`; with two, SQLite
/// refuses the new table and nothing is rebuilt.
pub open spec fn table_info_after_rebuild(mode: RebuildMode, cols: Seq<ColumnSpec>) -> Seq<
    ColumnSpec,
> {
    cols.map_values(
        |c: ColumnSpec|
            ColumnSpec {
                name: c.name,
                column_type: rebuilt_type(mode, c),
                not_null: c.not_null,
                default_value: c.default_value,
                pk_position: if is_key(mode, c) {
                    1
                } else {
                    0
                },
            },
    )
}

/// Whether a rebuild declares at most one column `PRIMARY KEY`, so that
/// SQLite accepts the new table.
pub open spec fn at_most_one_key(mode: RebuildMode, cols: Seq<ColumnSpec>) -> bool {
    forall|i: int, j: int|
        0 <= i < cols.len() && 0 <= j < cols.len() && is_key(mode, #[trigger] cols[i]) && is_key(
            mode,
            #[trigger] cols[j],
        ) ==> i == j
}

proof fn lemma_rebuild_stable(mode: RebuildMode, cols: Seq<ColumnSpec>, column: Seq<char>)
    ensures
        rebuilt_defs(mode, table_info_after_rebuild(mode, cols)) == rebuilt_defs(mode, cols),
        quoted_names(table_info_after_rebuild(mode, cols)) == quoted_names(cols),
        table_info_after_rebuild(mode, table_info_after_rebuild(mode, cols))
            == table_info_after_rebuild(mode, cols),
        table_info_after_rebuild(mode, cols).map_values(|c: ColumnSpec| copy_select(c, column))
            == cols.map_values(|c: ColumnSpec| copy_select(c, column)),
{
    let after = table_info_after_rebuild(mode, cols);
    assert forall|i: int| 0 <= i < cols.len() implies rebuilt_def(mode, #[trigger] after[i])
        == rebuilt_def(mode, cols[i]) && is_key(mode, after[i]) == is_key(mode, cols[i])
        && rebuilt_type(mode, after[i]) == rebuilt_type(mode, cols[i]) by {
        let c = cols[i];
        match mode {
            RebuildMode::IdSwap(id_type, _) => {
                if c.name == "id"@ {
                    assert(rebuilt_type(mode, after[i]) == id_type);
                }
            },
            RebuildMode::Retype(column, new_type, _, _) => {
                if c.name == column {
                    assert(rebuilt_type(mode, after[i]) == new_type);
                }
            },
            RebuildMode::Keep => {},
        }
    }
    assert(rebuilt_defs(mode, after) =~= rebuilt_defs(mode, cols));
    assert(quoted_names(after) =~= quoted_names(cols));
    assert(table_info_after_rebuild(mode, after) =~= after);
    assert(after.map_values(|c: ColumnSpec| copy_select(c, column)) =~= cols.map_values(
        |c: ColumnSpec| copy_select(c, column),
    ));
}

/// A full table copy is idempotent: when it succeeds (the key is skipped,
/// or at most one column is in it), running it again on the columns
/// SQLite then reports builds the very same statement, so the table ends
/// with the same columns as after the first run.
pub proof fn lemma_full_copy_idempotent(
    table: Seq<char>,
    column: Seq<char>,
    unique: bool,
    skip_pk: bool,
    cols: Seq<ColumnSpec>,
)
    requires
        at_most_one_key(RebuildMode::Retype(column, "uuid_text"@, unique, skip_pk), cols),
    ensures
        ({
            let mode = RebuildMode::Retype(column, "uuid_text"@, unique, skip_pk);
            let after = table_info_after_rebuild(mode, cols);
            &&& copy_table_sql(
                table,
                table + "__col_copy_tmp"@,
                rebuilt_defs(mode, after),
                quoted_names(after),
                after.map_values(|c: ColumnSpec| copy_select(c, column)),
            ) == copy_table_sql(
                table,
                table + "__col_copy_tmp"@,
                rebuilt_defs(mode, cols),
                quoted_names(cols),
                cols.map_values(|c: ColumnSpec| copy_select(c, column)),
            )
            &&& table_info_after_rebuild(mode, after) == after
        }),
{
    let mode = RebuildMode::Retype(column, "uuid_text"@, unique, skip_pk);
    lemma_rebuild_stable(mode, cols, column);
}

/// Dropping the foreign keys is idempotent: when the rebuild succeeds (at
/// most one column is in the key), running it again on the columns SQLite
/// then reports builds the very same statement, and the table ends with
/// the same columns.
pub proof fn lemma_drop_foreign_keys_idempotent(table: Seq<char>, cols: Seq<ColumnSpec>)
    requires
        at_most_one_key(RebuildMode::Keep, cols),
    ensures
        ({
            let after = table_info_after_rebuild(RebuildMode::Keep, cols);
            &&& rebuild_table_sql(
                table,
                table + "__drop_fk_tmp"@,
                rebuilt_defs(RebuildMode::Keep, after),
                quoted_names(after),
            ) == rebuild_table_sql(
                table,
                table + "__drop_fk_tmp"@,
                rebuilt_defs(RebuildMode::Keep, cols),
                quoted_names(cols),
            )
            &&& table_info_after_rebuild(RebuildMode::Keep, after) == after
        }),
{
    lemma_rebuild_stable(RebuildMode::Keep, cols, table);
}

/// The columns other than `name`, in table order.
pub open spec fn without_column(cols: Seq<ColumnSpec>, name: Seq<char>) -> Seq<ColumnSpec>
    decreases cols.len(),
{
    if cols.len() == 0 {
        seq![]
    } else {
        without_column(cols.drop_last(), name) + (if cols.last().name == name {
            seq![]
        } else {
            seq![cols.last()]
        })
    }
}

/// The columns that `PRAGMA table_info` reports after a column is
/// rewritten in place to `new_type` through a temporary column (added at
/// the end, filled, the old column dropped, the new one renamed): the
/// other columns as they were, then the column with the new type, neither
/// `NOT NULL` nor `DEFAULT`, outside the key.
pub open spec fn table_info_after_rewrite(
    cols: Seq<ColumnSpec>,
    column: Seq<char>,
    new_type: Seq<char>,
) -> Seq<ColumnSpec> {
    without_column(cols, column).push(
        ColumnSpec {
            name: column,
            column_type: new_type,
            not_null: false,
            default_value: None,
            pk_position: 0,
        },
    )
}

proof fn lemma_without_column_twice(cols: Seq<ColumnSpec>, name: Seq<char>)
    ensures
        without_column(without_column(cols, name), name) == without_column(cols, name),
    decreases cols.len(),
{
    if cols.len() > 0 {
        let w = without_column(cols.drop_last(), name);
        lemma_without_column_twice(cols.drop_last(), name);
        if cols.last().name != name {
            assert(w.push(cols.last()).drop_last() =~= w);
            assert(w + seq![cols.last()] =~= w.push(cols.last()));
        } else {
            assert(w + seq![] =~= w);
        }
    }
}

proof fn lemma_without_column_keeps_absence(cols: Seq<ColumnSpec>, name: Seq<char>, other: Seq<char>)
    requires
        !has_column(cols, other),
    ensures
        !has_column(without_column(cols, name), other),
    decreases cols.len(),
{
    if cols.len() > 0 {
        let init = cols.drop_last();
        assert forall|i: int| 0 <= i < init.len() implies #[trigger] init[i].name != other by {
            assert(init[i] == cols[i]);
        }
        lemma_without_column_keeps_absence(init, name, other);
        assert(cols.last() == cols[cols.len() - 1]);
        let w = without_column(init, name);
        let tail: Seq<ColumnSpec> = if cols.last().name == name {
            seq![]
        } else {
            seq![cols.last()]
        };
        assert forall|i: int| 0 <= i < (w + tail).len() implies #[trigger] (w + tail)[i].name
            != other by {
            if i >= w.len() {
                assert((w + tail)[i] == cols.last());
            } else {
                assert((w + tail)[i] == w[i]);
            }
        }
    }
}

/// Reverting a column after converting it gives back a `TEXT` column: for
/// a column other than `id`, converting it in place to `uuid_text` and
/// then reverting it leaves the same columns as reverting it alone would
/// (the other columns as they were, the column last, typed `TEXT`), and
/// when the table had no leftover temporary column of the revert, the
/// revert finds none after the conversion either, so it runs its plain
/// steps.
pub proof fn lemma_alter_then_revert(cols: Seq<ColumnSpec>, column: Seq<char>)
    requires
        column != "id"@,
    ensures
        table_info_after_rewrite(
            table_info_after_rewrite(cols, column, "uuid_text"@),
            column,
            "TEXT"@,
        ) == table_info_after_rewrite(cols, column, "TEXT"@),
        !has_column(cols, column + "__tmp_text"@) ==> !has_column(
            table_info_after_rewrite(cols, column, "uuid_text"@),
            column + "__tmp_text"@,
        ),
{
    let altered = table_info_after_rewrite(cols, column, "uuid_text"@);
    let w = without_column(cols, column);
    assert(altered.drop_last() =~= w);
    lemma_without_column_twice(cols, column);
    assert(without_column(altered, column) =~= without_column(w, column));
    let temp = column + "__tmp_text"@;
    if !has_column(cols, temp) {
        lemma_without_column_keeps_absence(cols, column, temp);
        reveal_strlit("__tmp_text");
        assert(temp.len() != column.len());
        assert forall|i: int| 0 <= i < altered.len() implies #[trigger] altered[i].name != temp by {
            if i < w.len() {
                assert(altered[i] == w[i]);
            }
        }
    }
}

proof fn lemma_regroup(
    a: Seq<char>,
    b: Seq<char>,
    t: Seq<char>,
    n: Seq<char>,
    d: Seq<char>,
    l: Seq<char>,
)
    ensures
        a + b + t + n + d + l == (a + b) + (t + n + d + l),
        a + b + t + n + d + l == (a + b + t) + n + (d + l),
{
    assert(a + b + t + n + d + l =~= (a + b) + (t + n + d + l));
    assert(a + b + t + n + d + l =~= (a + b + t) + n + (d + l));
}

proof fn lemma_regroup_default(
    a: Seq<char>,
    b: Seq<char>,
    t: Seq<char>,
    n: Seq<char>,
    k: Seq<char>,
    d: Seq<char>,
    l: Seq<char>,
)
    ensures
        a + b + t + n + (k + d) + l == a + (b + t + n) + k + d + l,
{
    assert(a + b + t + n + (k + d) + l =~= a + (b + t + n) + k + d + l);
}

proof fn lemma_def_clauses(mode: RebuildMode, c: ColumnSpec)
    ensures
        exists|q: Seq<char>| #[trigger] (quote_ident(c.name) + " "@ + q) == rebuilt_def(mode, c),
        c.not_null ==> exists|p: Seq<char>, q: Seq<char>| #[trigger] (p + " NOT NULL"@ + q)
            == rebuilt_def(mode, c),
        c.default_value matches Some(d) ==> exists|p: Seq<char>, q: Seq<char>|
            #[trigger] (quote_ident(c.name) + p + " DEFAULT "@ + d + q) == rebuilt_def(mode, c),
{
    let a = quote_ident(c.name);
    let b = " "@;
    let t = rebuilt_type(mode, c);
    let n: Seq<char> = if c.not_null {
        " NOT NULL"@
    } else {
        seq![]
    };
    let d: Seq<char> = match c.default_value {
        Some(dv) => " DEFAULT "@ + dv,
        None => seq![],
    };
    let l: Seq<char> = (if is_key(mode, c) {
        " PRIMARY KEY"@
    } else {
        seq![]
    }) + (if rebuilt_unique(mode, c) {
        " UNIQUE"@
    } else {
        seq![]
    });
    assert(rebuilt_def(mode, c) == a + b + t + n + d + l) by {
        let pk: Seq<char> = if is_key(mode, c) {
            " PRIMARY KEY"@
        } else {
            seq![]
        };
        let uq: Seq<char> = if rebuilt_unique(mode, c) {
            " UNIQUE"@
        } else {
            seq![]
        };
        assert(a + b + t + n + d + pk + uq =~= a + b + t + n + d + l);
    }
    lemma_regroup(a, b, t, n, d, l);
    assert(a + b + (t + n + d + l) == rebuilt_def(mode, c));
    if c.not_null {
        assert((a + b + t) + " NOT NULL"@ + (d + l) == rebuilt_def(mode, c));
    }
    if let Some(dv) = c.default_value {
        lemma_regroup_default(a, b, t, n, " DEFAULT "@, dv, l);
        assert(a + (b + t + n) + " DEFAULT "@ + dv + l == rebuilt_def(mode, c));
    }
}

/// A rebuild keeps what `PRAGMA table_info` says of every column: its
/// definition starts with its quoted name; it says `NOT NULL` when the
/// column is `NOT NULL`; and when the column has a default `d`, it says
/// `DEFAULT d`, whatever the column's other flags and whatever the rebuild
/// does to its type or key.
pub proof fn lemma_rebuild_keeps_column_clauses(mode: RebuildMode, cols: Seq<ColumnSpec>, i: int)
    requires
        0 <= i < cols.len(),
    ensures
        exists|q: Seq<char>| #[trigger] (quote_ident(cols[i].name) + " "@ + q) == rebuilt_defs(
            mode,
            cols,
        )[i],
        cols[i].not_null ==> exists|p: Seq<char>, q: Seq<char>| #[trigger] (p + " NOT NULL"@ + q)
            == rebuilt_defs(mode, cols)[i],
        cols[i].default_value matches Some(d) ==> exists|p: Seq<char>, q: Seq<char>|
            #[trigger] (quote_ident(cols[i].name) + p + " DEFAULT "@ + d + q) == rebuilt_defs(
                mode,
                cols,
            )[i],
{
    assert(rebuilt_defs(mode, cols)[i] == rebuilt_def(mode, cols[i]));
    lemma_def_clauses(mode, cols[i]);
}

/// The `id` flag of [`sqlite_set_id_primary_key`] decides exactly one
/// thing: with the flag on, the `id` column's definition is its definition
/// with the flag off followed by ` PRIMARY KEY`, whatever the column's
/// `NOT NULL`, default or key position; every other column is defined the
/// same either way. With the flag off, `id` is defined as a column of the
/// new type outside the key would be kept by a plain rebuild.
pub proof fn lemma_set_id_primary_key_flag(id_type: Seq<char>, cols: Seq<ColumnSpec>, i: int)
    requires
        0 <= i < cols.len(),
    ensures
        cols[i].name == "id"@ ==> rebuilt_defs(RebuildMode::IdSwap(id_type, true), cols)[i]
            == rebuilt_defs(RebuildMode::IdSwap(id_type, false), cols)[i] + " PRIMARY KEY"@,
        cols[i].name == "id"@ ==> rebuilt_defs(RebuildMode::IdSwap(id_type, false), cols)[i]
            == rebuilt_defs(
            RebuildMode::Keep,
            cols.update(
                i,
                ColumnSpec {
                    name: cols[i].name,
                    column_type: id_type,
                    not_null: cols[i].not_null,
                    default_value: cols[i].default_value,
                    pk_position: 0,
                },
            ),
        )[i],
        cols[i].name != "id"@ ==> rebuilt_defs(RebuildMode::IdSwap(id_type, true), cols)[i]
            == rebuilt_defs(RebuildMode::Keep, cols)[i],
        cols[i].name != "id"@ ==> rebuilt_defs(RebuildMode::IdSwap(id_type, false), cols)[i]
            == rebuilt_defs(RebuildMode::Keep, cols)[i],
{
    let c = cols[i];
    let plain = ColumnSpec {
        name: c.name,
        column_type: id_type,
        not_null: c.not_null,
        default_value: c.default_value,
        pk_position: 0,
    };
    let upd = cols.update(i, plain);
    assert(upd[i] == plain);
    assert(rebuilt_defs(RebuildMode::IdSwap(id_type, true), cols)[i] =~= rebuilt_defs(
        RebuildMode::IdSwap(id_type, false),
        cols,
    )[i] + " PRIMARY KEY"@ || c.name != "id"@);
}

/// What the two flags of a full copy decide. Skipping the key only takes
/// ` PRIMARY KEY` off the key columns: a key column's definition is the
/// skipped one with ` PRIMARY KEY` put in before any ` UNIQUE`, and every
/// other column is defined the same either way. Asking for `UNIQUE` only
/// appends ` UNIQUE` to the retyped column. Outside the retyped column, a
/// copy that keeps the key defines every column as a plain rebuild does;
/// the retyped column's definition starts with its quoted name and the new
/// type.
pub proof fn lemma_full_copy_flags(
    column: Seq<char>,
    new_type: Seq<char>,
    unique: bool,
    skip_pk: bool,
    cols: Seq<ColumnSpec>,
    i: int,
)
    requires
        0 <= i < cols.len(),
    ensures
        cols[i].pk_position > 0 ==> exists|p: Seq<char>, q: Seq<char>|
            #![trigger p + q, p + " PRIMARY KEY"@ + q]
            rebuilt_defs(RebuildMode::Retype(column, new_type, unique, true), cols)[i] == p + q
                && rebuilt_defs(RebuildMode::Retype(column, new_type, unique, false), cols)[i] == p
                + " PRIMARY KEY"@ + q,
        cols[i].pk_position <= 0 ==> rebuilt_defs(
            RebuildMode::Retype(column, new_type, unique, true),
            cols,
        )[i] == rebuilt_defs(RebuildMode::Retype(column, new_type, unique, false), cols)[i],
        cols[i].name == column ==> rebuilt_defs(
            RebuildMode::Retype(column, new_type, true, skip_pk),
            cols,
        )[i] == rebuilt_defs(RebuildMode::Retype(column, new_type, false, skip_pk), cols)[i]
            + " UNIQUE"@,
        cols[i].name != column ==> rebuilt_defs(
            RebuildMode::Retype(column, new_type, true, skip_pk),
            cols,
        )[i] == rebuilt_defs(RebuildMode::Retype(column, new_type, false, skip_pk), cols)[i],
        cols[i].name != column ==> rebuilt_defs(
            RebuildMode::Retype(column, new_type, unique, false),
            cols,
        )[i] == rebuilt_defs(RebuildMode::Keep, cols)[i],
        cols[i].name == column ==> exists|q: Seq<char>|
            #[trigger] (quote_ident(column) + " "@ + new_type + q) == rebuilt_defs(
                RebuildMode::Retype(column, new_type, unique, skip_pk),
                cols,
            )[i],
{
    let c = cols[i];
    let nn: Seq<char> = if c.not_null {
        " NOT NULL"@
    } else {
        seq![]
    };
    let dflt: Seq<char> = match c.default_value {
        Some(d) => " DEFAULT "@ + d,
        None => seq![],
    };
    let ty = if c.name == column {
        new_type
    } else {
        c.column_type
    };
    let uq: Seq<char> = if unique && c.name == column {
        " UNIQUE"@
    } else {
        seq![]
    };
    let p = quote_ident(c.name) + " "@ + ty + nn + dflt;
    let with_skip = rebuilt_defs(RebuildMode::Retype(column, new_type, unique, true), cols)[i];
    let without_skip = rebuilt_defs(RebuildMode::Retype(column, new_type, unique, false), cols)[i];
    if c.pk_position > 0 {
        assert(with_skip =~= p + uq);
        assert(without_skip =~= p + " PRIMARY KEY"@ + uq);
    }
    if c.name == column {
        assert(rebuilt_defs(RebuildMode::Retype(column, new_type, true, skip_pk), cols)[i]
            =~= rebuilt_defs(RebuildMode::Retype(column, new_type, false, skip_pk), cols)[i]
            + " UNIQUE"@);
        let k: Seq<char> = if !skip_pk && c.pk_position > 0 {
            " PRIMARY KEY"@
        } else {
            seq![]
        };
        let q = nn + dflt + k + uq;
        assert(quote_ident(column) + " "@ + new_type + q =~= rebuilt_defs(
            RebuildMode::Retype(column, new_type, unique, skip_pk),
            cols,
        )[i]);
    }
}

/// The steps of an in-place column rewrite, in terms of what they are
/// for: there is one step per task (dropping a leftover temporary column,
/// taking the key off `id` and putting it back, dropping and recreating
/// the unique index) and one rewrite, so the count of steps follows from
/// the flags alone. A leftover temporary column, whatever the column, is
/// dropped first. The rewrite runs exactly once. For `id` the key is
/// taken off before the rewrite and put back right after it, whether or
/// not a leftover column was found; no other column touches the key. For a
/// unique column the index is dropped before the rewrite and recreated
/// after it.
pub proof fn lemma_rewrite_steps_order(
    table: Seq<char>,
    column: Seq<char>,
    unique: bool,
    temp_column: Seq<char>,
    leftover: bool,
    rewrite: Seq<char>,
)
    ensures
        ({
            let s = rewrite_steps(table, column, unique, temp_column, leftover, rewrite);
            let index = quote_ident(autoindex_name(table));
            &&& s.len() == 1 + (if leftover {
                1int
            } else {
                0int
            }) + (if column == "id"@ {
                2int
            } else {
                0int
            }) + (if unique {
                2int
            } else {
                0int
            })
            &&& leftover ==> s[0] == StepSpec::ExecuteIgnoringErrors(
                "ALTER TABLE "@ + quote_ident(table) + " DROP COLUMN "@ + quote_ident(temp_column),
            )
            &&& exists|j: int|
                0 <= j < s.len() && #[trigger] s[j] == StepSpec::Execute(rewrite) && (forall|k: int|
                    0 <= k < s.len() && k != j ==> !(#[trigger] s[k] is Execute)) && (column
                    == "id"@ ==> (exists|i: int|
                    0 <= i < j && #[trigger] s[i] == StepSpec::SetIdPrimaryKey("uuid_text"@, false))
                    && s[j + 1] == StepSpec::SetIdPrimaryKey("uuid_text"@, true)) && (unique ==> (
                exists|i: int|
                    0 <= i < j && #[trigger] s[i] == StepSpec::ExecuteIgnoringErrors(
                        "DROP INDEX IF EXISTS "@ + index,
                    )) && (exists|i: int|
                    j < i < s.len() && #[trigger] s[i] == StepSpec::ExecuteIgnoringErrors(
                        "CREATE UNIQUE INDEX "@ + index + " ON "@ + quote_ident(table) + " ("@
                            + quote_ident(column) + ")"@,
                    )))
            &&& column != "id"@ ==> forall|k: int|
                0 <= k < s.len() ==> !(#[trigger] s[k] is SetIdPrimaryKey)
        }),
{
    let s = rewrite_steps(table, column, unique, temp_column, leftover, rewrite);
    let index = quote_ident(autoindex_name(table));
    let qt = quote_ident(table);
    let is_id = column == "id"@;
    let a: Seq<StepSpec> = if leftover {
        seq![
            StepSpec::ExecuteIgnoringErrors(
                "ALTER TABLE "@ + qt + " DROP COLUMN "@ + quote_ident(temp_column),
            ),
        ]
    } else {
        seq![]
    };
    let b: Seq<StepSpec> = if is_id {
        seq![StepSpec::SetIdPrimaryKey("uuid_text"@, false)]
    } else {
        seq![]
    };
    let c: Seq<StepSpec> = if unique {
        seq![StepSpec::ExecuteIgnoringErrors("DROP INDEX IF EXISTS "@ + index)]
    } else {
        seq![]
    };
    let d: Seq<StepSpec> = if is_id {
        seq![StepSpec::SetIdPrimaryKey("uuid_text"@, true)]
    } else {
        seq![]
    };
    let e: Seq<StepSpec> = if unique {
        seq![
            StepSpec::ExecuteIgnoringErrors(
                "CREATE UNIQUE INDEX "@ + index + " ON "@ + qt + " ("@ + quote_ident(column)
                    + ")"@,
            ),
        ]
    } else {
        seq![]
    };
    let x = seq![StepSpec::Execute(rewrite)];
    assert(s =~= a + b + c + x + d + e);
    let j: int = (a.len() + b.len() + c.len()) as int;
    assert(s[j] == StepSpec::Execute(rewrite));
    assert forall|k: int| 0 <= k < s.len() && k != j implies !(#[trigger] s[k] is Execute) by {
        if k < a.len() {
            assert(s[k] == a[k]);
        } else if k < a.len() + b.len() {
            assert(s[k] == b[k - a.len()]);
        } else if k < j {
            assert(s[k] == c[k - a.len() - b.len()]);
        } else if k < j + 1 + d.len() {
            assert(s[k] == d[k - j - 1]);
        } else {
            assert(s[k] == e[k - j - 1 - d.len()]);
        }
    }
    if is_id {
        assert(s[a.len() as int] == StepSpec::SetIdPrimaryKey("uuid_text"@, false));
        assert(s[j + 1] == StepSpec::SetIdPrimaryKey("uuid_text"@, true));
    }
    if unique {
        assert(s[(a.len() + b.len()) as int] == StepSpec::ExecuteIgnoringErrors(
            "DROP INDEX IF EXISTS "@ + index,
        ));
        assert(s[j + 1 + d.len()] == e[0]);
    }
    if !is_id {
        assert forall|k: int| 0 <= k < s.len() implies !(#[trigger] s[k] is SetIdPrimaryKey) by {
            if k < a.len() {
                assert(s[k] == a[k]);
            } else if k < j {
                assert(s[k] == c[k - a.len()]);
            } else if k == j {
            } else {
                assert(s[k] == e[k - j - 1]);
            }
        }
    }
    if leftover {
        assert(s[0] == a[0]);
    }
}

/// What a full copy copies: one value per column; each column other than
/// the retyped one is copied as it is, by the very name the new table
/// declares for it, and SQLite reads that name back as the column's own
/// name; the retyped column's value is read as text and lower-cased.
pub proof fn lemma_full_copy_selects(cols: Seq<ColumnSpec>, column: Seq<char>, i: int)
    requires
        0 <= i < cols.len(),
    ensures
        quoted_names(cols).len() == cols.len(),
        cols.map_values(|c: ColumnSpec| copy_select(c, column)).len() == cols.len(),
        unquote_ident(quoted_names(cols)[i]) == cols[i].name,
        cols[i].name != column ==> cols.map_values(|c: ColumnSpec| copy_select(c, column))[i]
            == quoted_names(cols)[i],
        cols[i].name == column ==> exists|p: Seq<char>, q: Seq<char>|
            #[trigger] (p + "lower(CAST("@ + quoted_names(cols)[i] + " AS TEXT))"@ + q)
                == cols.map_values(|c: ColumnSpec| copy_select(c, column))[i],
{
    let qn = quote_ident(cols[i].name);
    lemma_quote_ident_roundtrip(cols[i].name, cols[i].name);
    assert(quoted_names(cols)[i] == qn);
    if cols[i].name == column {
        reveal_strlit(" IS NULL THEN NULL ELSE lower(CAST(");
        reveal_strlit(" IS NULL THEN NULL ELSE ");
        reveal_strlit("lower(CAST(");
        reveal_strlit(" AS TEXT)) END");
        reveal_strlit(" AS TEXT))");
        reveal_strlit(" END");
        let p = "CASE WHEN "@ + qn + " IS NULL THEN NULL ELSE "@;
        assert(p + "lower(CAST("@ + qn + " AS TEXT))"@ + " END"@ =~= cols.map_values(
            |c: ColumnSpec| copy_select(c, column),
        )[i]);
    }
}

/// A plain rebuild (as [`sqlite_drop_foreign_keys`] does) declares a
/// column `PRIMARY KEY` exactly when `PRAGMA table_info` puts it in the
/// key: a key column is defined as the same column outside the key would
/// be, followed by ` PRIMARY KEY`; nothing else depends on the key
/// position.
pub proof fn lemma_rebuild_key_clause(cols: Seq<ColumnSpec>, i: int)
    requires
        0 <= i < cols.len(),
    ensures
        ({
            let outside = cols.update(
                i,
                ColumnSpec {
                    name: cols[i].name,
                    column_type: cols[i].column_type,
                    not_null: cols[i].not_null,
                    default_value: cols[i].default_value,
                    pk_position: 0,
                },
            );
            &&& cols[i].pk_position > 0 ==> rebuilt_defs(RebuildMode::Keep, cols)[i]
                == rebuilt_defs(RebuildMode::Keep, outside)[i] + " PRIMARY KEY"@
            &&& cols[i].pk_position <= 0 ==> rebuilt_defs(RebuildMode::Keep, cols)[i]
                == rebuilt_defs(RebuildMode::Keep, outside)[i]
        }),
{
    let c = cols[i];
    let o = ColumnSpec {
        name: c.name,
        column_type: c.column_type,
        not_null: c.not_null,
        default_value: c.default_value,
        pk_position: 0,
    };
    let outside = cols.update(i, o);
    assert(outside[i] == o);
    assert(rebuilt_defs(RebuildMode::Keep, cols)[i] == rebuilt_def(RebuildMode::Keep, c));
    assert(rebuilt_defs(RebuildMode::Keep, outside)[i] == rebuilt_def(RebuildMode::Keep, o));
    if c.pk_position > 0 {
        assert(rebuilt_def(RebuildMode::Keep, c) =~= rebuilt_def(RebuildMode::Keep, o)
            + " PRIMARY KEY"@);
    }
}

} // verus!
