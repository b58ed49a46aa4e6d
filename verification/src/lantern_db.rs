//! The auth database: the sessions table and its two queries.
//! Instants are Unix seconds (UTC).

use vstd::prelude::*;

use crate::err::DbErr;
use crate::rows::{CellValue, SqlRow};
use crate::sqlite::{conn_execute, conn_open, conn_query_rows, ArgValue};
use vstd::string::*;

verus! {

/// A stored session: token plus its validity window, in Unix seconds.
#[derive(Debug)]
pub struct Session {
    pub id: i64,
    pub session_token: String,
    pub started_at: i64,
    pub expires_at: i64,
}

/// The insert message for a fresh session.
#[derive(Debug)]
pub struct CreateSession {
    pub session_token: String,
    pub started_at: i64,
    pub expires_at: i64,
}

/// The lookup message: a token and the current instant.
#[derive(Debug)]
pub struct LookupActiveSession {
    pub session_token: String,
    pub now: i64,
}

/// The auth database: one exclusively-owned SQLite connection.
pub struct LanternDb {
    pub connection: rusqlite::Connection,
}

impl LanternDb {
    /// Opens (creating if absent) the database at `path`.
    pub fn open(path: &str) -> (r: Result<LanternDb, DbErr>) {
        match conn_open(path) {
            Ok(connection) => Ok(LanternDb { connection }),
            Err(e) => Err(e),
        }
    }

    /// Creates the sessions table idempotently.
    pub fn ensure_schema(&self) -> (r: Result<(), DbErr>) {
        let no_args: Vec<(String, ArgValue)> = Vec::new();
        conn_execute(
            &self.connection,
            "CREATE TABLE IF NOT EXISTS lantern_sessions (id INTEGER PRIMARY KEY AUTOINCREMENT, session_token VARCHAR(255) NOT NULL, started_at DATETIME NOT NULL, expires_at DATETIME NOT NULL)",
            &no_args,
        )?;
        Ok(())
    }

    /// Inserts one session row.
    pub fn create_session(&self, q: &CreateSession) -> (r: Result<(), DbErr>) {
        let mut args: Vec<(String, ArgValue)> = Vec::new();
        args.push((String::from_str(":token"), ArgValue::Text(q.session_token.clone())));
        args.push((String::from_str(":started_at"), ArgValue::Int(q.started_at)));
        args.push((String::from_str(":expires_at"), ArgValue::Int(q.expires_at)));
        conn_execute(
            &self.connection,
            "INSERT INTO lantern_sessions (session_token, started_at, expires_at) VALUES (:token, :started_at, :expires_at)",
            &args,
        )?;
        Ok(())
    }

    /// Looks a token up; `None` when no matching session is still unexpired
    /// at `q.now`.
    pub fn lookup_active_session(&self, q: &LookupActiveSession) -> (r: Result<
        Option<Session>,
        DbErr,
    >) {
        let mut args: Vec<(String, ArgValue)> = Vec::new();
        args.push((String::from_str(":token"), ArgValue::Text(q.session_token.clone())));
        args.push((String::from_str(":now"), ArgValue::Int(q.now)));
        let rows = conn_query_rows(
            &self.connection,
            "SELECT id, session_token, started_at, expires_at FROM lantern_sessions WHERE session_token=:token AND expires_at > :now LIMIT 1",
            &args,
        )?;
        if rows.len() == 0 {
            return Ok(None);
        }
        match session_from_row(&rows[0]) {
            Ok(s) => Ok(Some(s)),
            Err(e) => Err(e),
        }
    }
}

/// Whether a row has the session shape: at least four cells typed
/// INTEGER, TEXT, INTEGER, INTEGER.
pub open spec fn session_row_shaped(row: Seq<(String, crate::rows::CellValue)>) -> bool {
    &&& row.len() >= 4
    &&& row[0].1 is Integer
    &&& row[1].1 is Text
    &&& row[2].1 is Integer
    &&& row[3].1 is Integer
}

/// Reads a session from an `id, session_token, started_at, expires_at` row.
/// Succeeds exactly when the row has the session shape.
pub fn session_from_row(row: &SqlRow) -> (r: Result<Session, DbErr>)
    ensures
        r is Ok <==> session_row_shaped(row@),
        r matches Ok(s) ==> {
            &&& row@.len() >= 4
            &&& row@[0].1 == CellValue::Integer(s.id)
            &&& (row@[1].1 matches CellValue::Text(t) && t@ == s.session_token@)
            &&& row@[2].1 == CellValue::Integer(s.started_at)
            &&& row@[3].1 == CellValue::Integer(s.expires_at)
        },
{
    if row.len() < 4 {
        return Err(DbErr::unexpected_cell_type());
    }
    let id = match &row[0].1 {
        CellValue::Integer(v) => *v,
        _ => { return Err(DbErr::unexpected_cell_type()) },
    };
    let session_token = match &row[1].1 {
        CellValue::Text(s) => s.clone(),
        _ => { return Err(DbErr::unexpected_cell_type()) },
    };
    let started_at = match &row[2].1 {
        CellValue::Integer(v) => *v,
        _ => { return Err(DbErr::unexpected_cell_type()) },
    };
    let expires_at = match &row[3].1 {
        CellValue::Integer(v) => *v,
        _ => { return Err(DbErr::unexpected_cell_type()) },
    };
    Ok(Session { id, session_token, started_at, expires_at })
}

} // verus!
