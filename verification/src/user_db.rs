//! The user database engine: serialized SQLite access, reader, writer,
//! migration and schema-dump operations, and the live-query batch.

use vstd::prelude::*;
use vstd::string::*;

use crate::clock::{format_compact, timestamp_shaped, utc_now_civil};
use crate::err::DbErr;
use crate::json::JsonValue;
use crate::num::{int_text, push_i64};
use crate::rows::{is_row_array, rows_to_json, CellValue, SqlRow};
use crate::sqlite::{
    conn_execute, conn_execute_batch, conn_last_insert_rowid, conn_open, conn_query_rows,
    stmt_parameter_names, ArgValue,
};

verus! {

/// A one-shot read: a SQL text and named arguments. A `None` argument
/// binds SQL NULL. Argument names are used verbatim as parameter names
/// (so they carry their leading ':').
#[derive(Debug)]
pub struct ReaderQuery {
    pub query: String,
    pub arguments: Vec<(String, Option<String>)>,
}

/// A one-shot write: one SQL statement and named arguments.
#[derive(Debug)]
pub struct WriterQuery {
    pub query: String,
    pub arguments: Vec<(String, Option<String>)>,
}

/// An integer-identified DDL script, applied once and recorded in
/// `schema_migrations`.
#[derive(Debug)]
pub struct DbMigration {
    pub query: String,
    pub id: String,
}

impl DbMigration {
    /// A migration whose id is the current UTC time in `YYYYMMDDHHMMSS` form.
    pub fn new(query: String) -> (m: DbMigration)
        ensures
            m.query == query,
            timestamp_shaped(m.id@),
    {
        let now = utc_now_civil();
        let id = format_compact(&now);
        DbMigration { query, id }
    }
}

/// The request marker for a schema dump.
#[derive(Debug)]
pub struct SchemaDump {}

/// What a writer reports back: rows changed and the row id the engine
/// assigned last.
#[derive(Debug, PartialEq, Eq, Structural)]
pub struct WriterQueryResult {
    pub changed_rows: usize,
    pub last_insert_rowid: i64,
}

/// A client's named live queries, in subscription order.
#[derive(Debug)]
pub struct LiveQueries(pub Vec<(String, ReaderQuery)>);

/// One JSON row array per live query, under the query's name.
#[derive(Debug)]
pub struct LiveResults(pub Vec<(String, JsonValue)>);

/// The mathematical shape of a reader or writer query.
#[verifier::ext_equal]
pub struct QueryView {
    pub query: Seq<char>,
    pub arguments: Seq<(Seq<char>, Option<Seq<char>>)>,
}

/// The view of an argument list: names and optional values, as texts.
pub open spec fn args_view(s: Seq<(String, Option<String>)>) -> Seq<
    (Seq<char>, Option<Seq<char>>),
> {
    s.map_values(
        |p: (String, Option<String>)|
            (
                p.0@,
                match p.1 {
                    Option::Some(x) => Option::Some(x@),
                    Option::None => Option::None,
                },
            ),
    )
}

impl View for ReaderQuery {
    type V = QueryView;

    open spec fn view(&self) -> QueryView {
        QueryView { query: self.query@, arguments: args_view(self.arguments@) }
    }
}

impl View for WriterQuery {
    type V = QueryView;

    open spec fn view(&self) -> QueryView {
        QueryView { query: self.query@, arguments: args_view(self.arguments@) }
    }
}

impl View for LiveQueries {
    type V = Seq<(Seq<char>, QueryView)>;

    open spec fn view(&self) -> Seq<(Seq<char>, QueryView)> {
        self.0@.map_values(|p: (String, ReaderQuery)| (p.0@, p.1@))
    }
}

impl View for LiveResults {
    type V = Seq<(Seq<char>, JsonValue)>;

    open spec fn view(&self) -> Seq<(Seq<char>, JsonValue)> {
        self.0@.map_values(|p: (String, JsonValue)| (p.0@, p.1))
    }
}

impl ReaderQuery {
    /// A copy with the same view.
    pub fn duplicate(&self) -> (r: ReaderQuery)
        ensures
            r@ == self@,
    {
        let mut arguments: Vec<(String, Option<String>)> = Vec::new();
        let mut i: usize = 0;
        while i < self.arguments.len()
            invariant
                0 <= i <= self.arguments@.len(),
                arguments@.len() == i,
                forall|j: int|
                    0 <= j < i ==> (#[trigger] arguments@[j]).0@ == self.arguments@[j].0@
                        && opt_string_matches(arguments@[j].1, self.arguments@[j].1),
            decreases self.arguments@.len() - i,
        {
            let name = self.arguments[i].0.clone();
            let value = match &self.arguments[i].1 {
                Some(s) => Some(s.clone()),
                None => None,
            };
            arguments.push((name, value));
            i = i + 1;
        }
        let r = ReaderQuery { query: self.query.clone(), arguments };
        proof {
            assert(args_view(r.arguments@) =~= args_view(self.arguments@));
            assert(r@ =~~= self@);
        }
        r
    }
}

/// Whether two optional strings hold the same text.
pub open spec fn opt_string_matches(a: Option<String>, b: Option<String>) -> bool {
    match (a, b) {
        (Option::None, Option::None) => true,
        (Option::Some(x), Option::Some(y)) => x@ == y@,
        _ => false,
    }
}

impl LiveQueries {
    /// A copy with the same view.
    pub fn duplicate(&self) -> (r: LiveQueries)
        ensures
            r@ == self@,
    {
        let mut entries: Vec<(String, ReaderQuery)> = Vec::new();
        let mut i: usize = 0;
        while i < self.0.len()
            invariant
                0 <= i <= self.0@.len(),
                entries@.len() == i,
                forall|j: int|
                    0 <= j < i ==> (#[trigger] entries@[j]).0@ == self.0@[j].0@
                        && entries@[j].1@ == self.0@[j].1@,
            decreases self.0@.len() - i,
        {
            let name = self.0[i].0.clone();
            let query = self.0[i].1.duplicate();
            entries.push((name, query));
            i = i + 1;
        }
        let r = LiveQueries(entries);
        proof {
            assert(r@ =~~= self@);
        }
        r
    }
}

/// Whether `needle` is the text of some string in `names`.
pub open spec fn name_present(names: Seq<String>, needle: Seq<char>) -> bool {
    exists|i: int| 0 <= i < names.len() && names[i]@ == needle
}

/// The entries of `args` whose names occur in `names`, in order.
pub open spec fn kept_args(args: Seq<(String, ArgValue)>, names: Seq<String>) -> Seq<
    (String, ArgValue),
>
    decreases args.len(),
{
    if args.len() == 0 {
        Seq::empty()
    } else if name_present(names, args.last().0@) {
        kept_args(args.drop_last(), names) + seq![args.last()]
    } else {
        kept_args(args.drop_last(), names)
    }
}

fn name_present_exec(names: &Vec<String>, needle: &str) -> (r: bool)
    ensures
        r == name_present(names@, needle@),
{
    let mut i: usize = 0;
    while i < names.len()
        invariant
            0 <= i <= names@.len(),
            forall|j: int| 0 <= j < i ==> (#[trigger] names@[j])@ != needle@,
        decreases names@.len() - i,
    {
        if crate::util::str_eq(names[i].as_str(), needle) {
            return true;
        }
        i = i + 1;
    }
    false
}

/// Converts reader/writer arguments to bindable values, keeping only the
/// names the statement mentions: SQLite leaves unbound parameters NULL, so
/// missing entries bind NULL, and dropped extras are ignored.
fn bindable_args(arguments: &Vec<(String, Option<String>)>, names: &Vec<String>) -> (r: Vec<
    (String, ArgValue),
>)
    ensures
        r@ == kept_args(args_values(arguments@), names@),
{
    let mut out: Vec<(String, ArgValue)> = Vec::new();
    let mut i: usize = 0;
    while i < arguments.len()
        invariant
            0 <= i <= arguments@.len(),
            out@ == kept_args(args_values(arguments@.subrange(0, i as int)), names@),
        decreases arguments@.len() - i,
    {
        let ghost prev = args_values(arguments@.subrange(0, i as int));
        if name_present_exec(names, arguments[i].0.as_str()) {
            let name = arguments[i].0.clone();
            let value = match &arguments[i].1 {
                Some(s) => ArgValue::Text(s.clone()),
                None => ArgValue::Null,
            };
            out.push((name, value));
        }
        proof {
            let sub = arguments@.subrange(0, i as int + 1);
            assert(sub.drop_last() =~= arguments@.subrange(0, i as int));
            let cur = args_values(sub);
            assert(cur == args_values(sub.drop_last()) + seq![
                (
                    sub.last().0,
                    match sub.last().1 {
                        Option::None => ArgValue::Null,
                        Option::Some(s) => ArgValue::Text(s),
                    },
                ),
            ]);
            assert(cur.drop_last() =~= prev);
            assert(cur.last().0@ == arguments@[i as int].0@);
            assert(out@ =~= kept_args(cur, names@));
        }
        i = i + 1;
    }
    proof {
        assert(arguments@.subrange(0, arguments@.len() as int) =~= arguments@);
    }
    out
}

/// The bindable form of reader/writer arguments: `None` becomes NULL,
/// `Some` becomes text. Names keep their text.
pub open spec fn args_values(args: Seq<(String, Option<String>)>) -> Seq<(String, ArgValue)>
    decreases args.len(),
{
    if args.len() == 0 {
        Seq::empty()
    } else {
        args_values(args.drop_last()) + seq![
            (
                args.last().0,
                match args.last().1 {
                    Option::None => ArgValue::Null,
                    Option::Some(s) => ArgValue::Text(s),
                },
            ),
        ]
    }
}

/// The user database: one exclusively-owned SQLite connection.
pub struct UserDb {
    pub connection: rusqlite::Connection,
}

impl UserDb {
    /// Opens (creating if absent) the database at `path`.
    pub fn open(path: &str) -> (r: Result<UserDb, DbErr>) {
        match conn_open(path) {
            Ok(connection) => Ok(UserDb { connection }),
            Err(e) => Err(e),
        }
    }

    /// First-run bootstrap: a brand-new database (no `schema_migrations`
    /// table) gets the empty schema, which creates that table.
    pub fn ensure_initialized(&self) -> (r: Result<(), DbErr>) {
        if self.is_new_db()? {
            self.load_schema("")?;
        }
        Ok(())
    }

    /// Runs one read-only query; the result is the faithful JSON projection
    /// of the rows that came back: an array of objects under the rules of
    /// the row encoding.
    pub fn run_reader_query(&self, query: &ReaderQuery) -> (r: Result<JsonValue, DbErr>)
        ensures
            r matches Ok(v) ==> is_row_array(v) && exists|rows: Seq<SqlRow>|
                crate::rows::rows_json_matches(rows, v),
    {
        let names = stmt_parameter_names(&self.connection, query.query.as_str())?;
        let args = bindable_args(&query.arguments, &names);
        let rows = conn_query_rows(&self.connection, query.query.as_str(), &args)?;
        let v = rows_to_json(&rows);
        proof {
            assert(crate::rows::rows_json_matches(rows@, v));
        }
        Ok(v)
    }

    /// Runs one writing statement, returning the changed-row count and the
    /// engine's last inserted rowid.
    pub fn run_writer_query(&self, query: &WriterQuery) -> (r: Result<WriterQueryResult, DbErr>) {
        let names = stmt_parameter_names(&self.connection, query.query.as_str())?;
        let args = bindable_args(&query.arguments, &names);
        let changed_rows = conn_execute(&self.connection, query.query.as_str(), &args)?;
        let last_insert_rowid = conn_last_insert_rowid(&self.connection);
        Ok(WriterQueryResult { changed_rows, last_insert_rowid })
    }

    /// Runs every live query in order; the first failure aborts the batch.
    /// On success every name is answered, in order, with a JSON row array.
    pub fn run_live_queries(&self, queries: &LiveQueries) -> (r: Result<LiveResults, DbErr>)
        ensures
            r matches Ok(lr) ==> {
                &&& lr.0@.len() == queries.0@.len()
                &&& forall|i: int|
                    0 <= i < lr.0@.len() ==> (#[trigger] lr.0@[i]).0@ == queries.0@[i].0@
                        && is_row_array(lr.0@[i].1)
            },
    {
        let mut results: Vec<(String, JsonValue)> = Vec::new();
        let mut i: usize = 0;
        while i < queries.0.len()
            invariant
                0 <= i <= queries.0@.len(),
                results@.len() == i,
                forall|j: int|
                    0 <= j < i ==> (#[trigger] results@[j]).0@ == queries.0@[j].0@ && is_row_array(
                        results@[j].1,
                    ),
            decreases queries.0@.len() - i,
        {
            let value = self.run_reader_query(&queries.0[i].1)?;
            let name = queries.0[i].0.clone();
            results.push((name, value));
            i = i + 1;
        }
        Ok(LiveResults(results))
    }

    /// Applies a migration atomically: in one transaction, runs the DDL
    /// script and records the migration's id in `schema_migrations`; any
    /// failure rolls the whole transaction back.
    pub fn run_migration(&self, migration: &DbMigration) -> (r: Result<bool, DbErr>)
        ensures
            r matches Ok(b) ==> b,
    {
        conn_execute_batch(&self.connection, "BEGIN;")?;
        if let Err(e) = conn_execute_batch(&self.connection, migration.query.as_str()) {
            self.try_rollback();
            return Err(e);
        }
        let mut args: Vec<(String, ArgValue)> = Vec::new();
        args.push((String::from_str(":version"), ArgValue::Text(migration.id.clone())));
        if let Err(e) = conn_execute(
            &self.connection,
            "INSERT INTO schema_migrations (version) VALUES (:version)",
            &args,
        ) {
            self.try_rollback();
            return Err(e);
        }
        if let Err(e) = conn_execute_batch(&self.connection, "COMMIT;") {
            self.try_rollback();
            return Err(e);
        }
        Ok(true)
    }

    fn try_rollback(&self) {
        if let Err(_ignored) = conn_execute_batch(&self.connection, "ROLLBACK;") {
        }
    }

    /// Records a version as applied without running anything.
    pub fn track_migration(&self, version: i64) -> (r: Result<usize, DbErr>) {
        let mut args: Vec<(String, ArgValue)> = Vec::new();
        args.push((String::from_str(":version"), ArgValue::Int(version)));
        conn_execute(
            &self.connection,
            "INSERT INTO schema_migrations (version) VALUES (:version)",
            &args,
        )
    }

    /// The schema snapshot: every user object's DDL joined and terminated
    /// by ";\n\n", then a row-insert restoring the applied high-water mark.
    pub fn dump_schema(&self) -> (r: Result<String, DbErr>)
        ensures
            r matches Ok(s) ==> exists|ddls: Seq<Seq<char>>, ver: int|
                s@ == schema_text_spec(ddls, ver),
    {
        let no_args: Vec<(String, ArgValue)> = Vec::new();
        let version_rows = conn_query_rows(
            &self.connection,
            "SELECT COALESCE(MAX(version), 0) AS version FROM schema_migrations",
            &no_args,
        )?;
        let version = single_integer(&version_rows)?;
        let sql_rows = conn_query_rows(
            &self.connection,
            "SELECT sql FROM sqlite_master WHERE name NOT LIKE 'sqlite_%' ORDER BY name",
            &no_args,
        )?;
        let sqls = text_column(&sql_rows)?;
        let snapshot = schema_text(&sqls, version);
        proof {
            let ddls = sqls@.map_values(|x: String| x@);
            assert(snapshot@ == schema_text_spec(ddls, version as int));
        }
        Ok(snapshot)
    }

    /// Runs a whole schema script (a snapshot, or the empty string), then
    /// makes sure `schema_migrations` exists.
    pub fn load_schema(&self, schema: &str) -> (r: Result<(), DbErr>) {
        conn_execute_batch(&self.connection, schema)?;
        let no_args: Vec<(String, ArgValue)> = Vec::new();
        conn_execute(
            &self.connection,
            "CREATE TABLE IF NOT EXISTS schema_migrations (\"version\" INTEGER PRIMARY KEY NOT NULL)",
            &no_args,
        )?;
        Ok(())
    }

    /// Whether the database has no `schema_migrations` table yet.
    pub fn is_new_db(&self) -> (r: Result<bool, DbErr>) {
        let no_args: Vec<(String, ArgValue)> = Vec::new();
        let rows = conn_query_rows(
            &self.connection,
            "SELECT 1 FROM sqlite_master WHERE type='table' AND name='schema_migrations';",
            &no_args,
        )?;
        Ok(rows.len() == 0)
    }

    /// The recorded applied versions, ascending.
    pub fn applied_migrations(&self) -> (r: Result<Vec<i64>, DbErr>) {
        let no_args: Vec<(String, ArgValue)> = Vec::new();
        let rows = conn_query_rows(
            &self.connection,
            "SELECT version FROM schema_migrations ORDER BY version",
            &no_args,
        )?;
        integer_column(&rows)
    }
}

/// The single integer cell of a query's first row. Succeeds exactly when
/// there is at least one row and its first cell is an INTEGER.
pub fn single_integer(rows: &Vec<SqlRow>) -> (r: Result<i64, DbErr>)
    ensures
        r is Ok <==> (rows@.len() >= 1 && rows@[0]@.len() >= 1 && rows@[0]@[0].1 is Integer),
        r matches Ok(v) ==> rows@[0]@[0].1 == CellValue::Integer(v),
{
    if rows.len() == 0 {
        return Err(DbErr::no_rows());
    }
    if rows[0].len() == 0 {
        return Err(DbErr::unexpected_cell_type());
    }
    match &rows[0][0].1 {
        CellValue::Integer(v) => Ok(*v),
        _ => Err(DbErr::unexpected_cell_type()),
    }
}

/// Whether every row starts with an INTEGER cell.
pub open spec fn all_integer_rows(rows: Seq<SqlRow>) -> bool {
    forall|i: int|
        0 <= i < rows.len() ==> (#[trigger] rows[i])@.len() >= 1 && rows[i]@[0].1 is Integer
}

/// The first column of every row, as integers. Succeeds exactly when every
/// row starts with an INTEGER cell.
pub fn integer_column(rows: &Vec<SqlRow>) -> (r: Result<Vec<i64>, DbErr>)
    ensures
        r is Ok <==> all_integer_rows(rows@),
        r matches Ok(vs) ==> vs@.len() == rows@.len() && forall|i: int|
            0 <= i < vs@.len() ==> (#[trigger] rows@[i])@.len() >= 1 && rows@[i]@[0].1
                == CellValue::Integer(vs@[i]),
{
    let mut out: Vec<i64> = Vec::new();
    let mut i: usize = 0;
    while i < rows.len()
        invariant
            0 <= i <= rows@.len(),
            out@.len() == i,
            forall|j: int|
                0 <= j < i ==> (#[trigger] rows@[j])@.len() >= 1 && rows@[j]@[0].1
                    == CellValue::Integer(out@[j]),
        decreases rows@.len() - i,
    {
        if rows[i].len() == 0 {
            assert(!all_integer_rows(rows@));
            return Err(DbErr::unexpected_cell_type());
        }
        match &rows[i][0].1 {
            CellValue::Integer(v) => out.push(*v),
            _ => {
                assert(!all_integer_rows(rows@));
                return Err(DbErr::unexpected_cell_type())
            },
        }
        i = i + 1;
    }
    Ok(out)
}

/// Whether every row starts with a TEXT cell.
pub open spec fn all_text_rows(rows: Seq<SqlRow>) -> bool {
    forall|i: int|
        0 <= i < rows.len() ==> (#[trigger] rows[i])@.len() >= 1 && rows[i]@[0].1 is Text
}

/// The first column of every row, as text. Succeeds exactly when every row
/// starts with a TEXT cell (a NULL `sql` cell, say, refuses the dump).
pub fn text_column(rows: &Vec<SqlRow>) -> (r: Result<Vec<String>, DbErr>)
    ensures
        r is Ok <==> all_text_rows(rows@),
        r matches Ok(vs) ==> vs@.len() == rows@.len() && forall|i: int|
            0 <= i < vs@.len() ==> (#[trigger] rows@[i])@.len() >= 1 && (rows@[i]@[0].1 matches
                CellValue::Text(t) && t@ == vs@[i]@),
{
    let mut out: Vec<String> = Vec::new();
    let mut i: usize = 0;
    while i < rows.len()
        invariant
            0 <= i <= rows@.len(),
            out@.len() == i,
            forall|j: int|
                0 <= j < i ==> (#[trigger] rows@[j])@.len() >= 1 && (rows@[j]@[0].1 matches
                    CellValue::Text(t) && t@ == out@[j]@),
        decreases rows@.len() - i,
    {
        if rows[i].len() == 0 {
            assert(!all_text_rows(rows@));
            return Err(DbErr::unexpected_cell_type());
        }
        match &rows[i][0].1 {
            CellValue::Text(s) => out.push(s.clone()),
            _ => {
                assert(!all_text_rows(rows@));
                return Err(DbErr::unexpected_cell_type())
            },
        }
        i = i + 1;
    }
    Ok(out)
}

/// The DDL texts joined, each terminated by ";\n\n".
pub open spec fn sql_concat(sqls: Seq<Seq<char>>) -> Seq<char>
    decreases sqls.len(),
{
    if sqls.len() == 0 {
        Seq::empty()
    } else {
        sql_concat(sqls.drop_last()) + sqls.last() + ";\n\n"@
    }
}

/// The exact snapshot text for the given DDLs and applied high-water mark.
pub open spec fn schema_text_spec(sqls: Seq<Seq<char>>, version: int) -> Seq<char> {
    sql_concat(sqls) + "INSERT INTO schema_migrations (version) VALUES ("@ + int_text(version)
        + ");\n\n"@
}

/// Assembles the schema snapshot text.
pub fn schema_text(sqls: &Vec<String>, version: i64) -> (s: String)
    ensures
        s@ == schema_text_spec(sqls@.map_values(|x: String| x@), version as int),
{
    let ghost views = sqls@.map_values(|x: String| x@);
    let mut out: Vec<char> = Vec::new();
    let mut i: usize = 0;
    while i < sqls.len()
        invariant
            0 <= i <= sqls@.len(),
            views == sqls@.map_values(|x: String| x@),
            out@ == sql_concat(views.subrange(0, i as int)),
        decreases sqls@.len() - i,
    {
        crate::json::push_str_chars(sqls[i].as_str(), &mut out);
        crate::json::push_str_chars(";\n\n", &mut out);
        proof {
            let cur = views.subrange(0, i as int + 1);
            assert(cur.drop_last() =~= views.subrange(0, i as int));
            assert(cur.last() == sqls@[i as int]@);
            assert(out@ =~= sql_concat(cur));
        }
        i = i + 1;
    }
    proof {
        assert(views.subrange(0, views.len() as int) =~= views);
    }
    crate::json::push_str_chars("INSERT INTO schema_migrations (version) VALUES (", &mut out);
    push_i64(version, &mut out);
    crate::json::push_str_chars(");\n\n", &mut out);
    assert(out@ =~= schema_text_spec(views, version as int));
    crate::json::chars_to_string(&out)
}

} // verus!
