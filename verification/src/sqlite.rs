//! The trusted boundary to SQLite, through rusqlite.
//!
//! Each function here wraps one rusqlite operation. Results depend on the
//! state of the database file, so the contracts state only what holds of
//! every outcome; the verified callers take these results as arguments
//! and do the rest.

use vstd::prelude::*;

use crate::err::DbErr;
use crate::rows::{CellValue, SqlRow};

verus! {

#[verifier::external_type_specification]
#[verifier::external_body]
pub struct ExConnection(rusqlite::Connection);

#[verifier::external_type_specification]
#[verifier::external_body]
pub struct ExRusqliteError(rusqlite::Error);

#[verifier::external_type_specification]
#[verifier::external_body]
pub struct ExRows<'a>(rusqlite::Rows<'a>);

#[verifier::external_type_specification]
#[verifier::external_body]
pub struct ExRow<'a>(rusqlite::Row<'a>);

#[verifier::external_type_specification]
#[verifier::external_body]
pub struct ExValueRef<'a>(rusqlite::types::ValueRef<'a>);

#[verifier::external_type_specification]
#[verifier::external_body]
pub struct ExValue(rusqlite::types::Value);

/// A value bound to a named SQL parameter.
#[derive(Debug)]
pub enum ArgValue {
    Null,
    Text(String),
    Int(i64),
}

/// Relies on rusqlite::Error's Display: the engine's message, as text.
#[verifier::external_body]
fn err_db(e: rusqlite::Error) -> DbErr {
    DbErr { message: e.to_string() }
}

/// Converts each argument to rusqlite's owned Value, variant for variant.
#[verifier::external_body]
fn to_sql_values(args: &Vec<(String, ArgValue)>) -> Vec<(String, rusqlite::types::Value)> {
    args.iter().map(|(n, a)| {
        (n.clone(), match a {
            ArgValue::Null => rusqlite::types::Value::Null,
            ArgValue::Text(s) => rusqlite::types::Value::Text(s.clone()),
            ArgValue::Int(i) => rusqlite::types::Value::Integer(*i),
        })
    }).collect()
}

/// Converts one result cell: reals are rendered through serde_json's
/// Number (which refuses NaN and infinities); text and blobs both become
/// UTF-8 text.
#[verifier::external_body]
fn cell_of_value_ref(v: rusqlite::types::ValueRef<'_>) -> Result<CellValue, DbErr> {
    match v {
        rusqlite::types::ValueRef::Null => Ok(CellValue::Null),
        rusqlite::types::ValueRef::Integer(i) => Ok(CellValue::Integer(i)),
        rusqlite::types::ValueRef::Real(x) => match serde_json::Number::from_f64(x) {
            Some(n) => Ok(CellValue::Real(n.to_string())),
            None => Err(DbErr::unrepresentable_cell()),
        },
        rusqlite::types::ValueRef::Text(b) => text_cell(b),
        rusqlite::types::ValueRef::Blob(b) => text_cell(b),
    }
}

/// Relies on std's str::from_utf8 to validate text and blob bytes.
#[verifier::external_body]
fn text_cell(b: &[u8]) -> Result<CellValue, DbErr> {
    match std::str::from_utf8(b) {
        Ok(s) => Ok(CellValue::Text(s.to_string())),
        Err(_) => Err(DbErr::unrepresentable_cell()),
    }
}

/// Relies on rusqlite's Row::get_ref: one converted cell per column, in
/// statement order, under the statement's column names.
#[verifier::external_body]
fn read_row(names: &Vec<String>, row: &rusqlite::Row<'_>) -> Result<SqlRow, DbErr> {
    let mut cells: Vec<(String, CellValue)> = Vec::new();
    for (i, name) in names.iter().enumerate() {
        match row.get_ref(i) {
            Ok(v) => cells.push((name.clone(), cell_of_value_ref(v)?)),
            Err(e) => return Err(err_db(e)),
        }
    }
    Ok(cells)
}

/// Relies on rusqlite's Rows::next: every result row, in order.
#[verifier::external_body]
fn collect_rows(names: &Vec<String>, mut rows: rusqlite::Rows<'_>) -> Result<Vec<SqlRow>, DbErr> {
    let mut out: Vec<SqlRow> = Vec::new();
    loop {
        match rows.next() {
            Ok(Some(row)) => out.push(read_row(names, row)?),
            Ok(None) => return Ok(out),
            Err(e) => return Err(err_db(e)),
        }
    }
}

/// Relies on rusqlite::Connection::open: opens (creating if absent) the
/// SQLite database at the given path.
#[verifier::external_body]
pub(crate) fn conn_open(path: &str) -> (r: Result<rusqlite::Connection, DbErr>) {
    rusqlite::Connection::open(path).map_err(err_db)
}

/// Relies on rusqlite::Connection::execute_batch: runs every statement of
/// the script, stopping at the first failure.
#[verifier::external_body]
pub(crate) fn conn_execute_batch(conn: &rusqlite::Connection, sql: &str) -> (r: Result<
    (),
    DbErr,
>) {
    conn.execute_batch(sql).map_err(err_db)
}

/// Relies on rusqlite::Connection::execute: prepares and runs one statement
/// with the given named parameters, returning the number of changed rows.
/// Fails on multi-statement input and on a parameter name the statement
/// does not mention.
#[verifier::external_body]
pub(crate) fn conn_execute(
    conn: &rusqlite::Connection,
    sql: &str,
    args: &Vec<(String, ArgValue)>,
) -> (r: Result<usize, DbErr>) {
    let vals = to_sql_values(args);
    let params: Vec<(&str, &dyn rusqlite::types::ToSql)> =
        vals.iter().map(|(n, v)| (n.as_str(), v as &dyn rusqlite::types::ToSql)).collect();
    conn.execute(sql, &params[..]).map_err(err_db)
}

/// Relies on rusqlite's prepare/query: runs the statement with the given
/// named parameters and returns all result rows, each cell converted to a
/// `CellValue` (reals rendered via serde_json and rejected when NaN or
/// infinite; text and blobs UTF-8 decoded, failing on invalid bytes).
#[verifier::external_body]
pub(crate) fn conn_query_rows(
    conn: &rusqlite::Connection,
    sql: &str,
    args: &Vec<(String, ArgValue)>,
) -> (r: Result<Vec<SqlRow>, DbErr>) {
    let mut stmt = conn.prepare(sql).map_err(err_db)?;
    let names: Vec<String> = stmt.column_names().iter().map(|n| n.to_string()).collect();
    let vals = to_sql_values(args);
    let params: Vec<(&str, &dyn rusqlite::types::ToSql)> =
        vals.iter().map(|(n, v)| (n.as_str(), v as &dyn rusqlite::types::ToSql)).collect();
    let collected = match stmt.query(&params[..]) {
        Ok(rows) => collect_rows(&names, rows),
        Err(e) => Err(err_db(e)),
    };
    collected
}

/// Relies on rusqlite::Connection::last_insert_rowid.
#[verifier::external_body]
pub(crate) fn conn_last_insert_rowid(conn: &rusqlite::Connection) -> (r: i64) {
    conn.last_insert_rowid()
}

/// Relies on rusqlite's prepare and Statement::parameter_name: the names of
/// the statement's bindable parameters.
#[verifier::external_body]
pub(crate) fn stmt_parameter_names(conn: &rusqlite::Connection, sql: &str) -> (r: Result<
    Vec<String>,
    DbErr,
>) {
    let stmt = conn.prepare(sql).map_err(err_db)?;
    let mut names: Vec<String> = Vec::new();
    for i in 1..=stmt.parameter_count() {
        if let Some(n) = stmt.parameter_name(i) {
            names.push(n.to_string());
        }
    }
    Ok(names)
}

} // verus!
