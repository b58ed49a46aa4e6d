//! Error values surfaced by the database layer.

use vstd::prelude::*;
use vstd::string::*;

verus! {

/// A database-layer failure, carrying a human-readable message.
/// SQLite failures arrive with the engine's own message; the internal
/// conversion failures below carry a fixed text.
#[derive(Debug)]
pub struct DbErr {
    pub message: String,
}

impl DbErr {
    /// The error for a result cell that has no JSON representation:
    /// a real that is NaN or infinite, or text/blob bytes that are not UTF-8.
    pub fn unrepresentable_cell() -> (e: DbErr)
        ensures
            e.message@ == "internal error: unrepresentable cell value"@,
    {
        DbErr { message: String::from_str("internal error: unrepresentable cell value") }
    }

    /// The error for a query that was owed a row but returned none.
    pub fn no_rows() -> (e: DbErr)
        ensures
            e.message@ == "internal error: query returned no rows"@,
    {
        DbErr { message: String::from_str("internal error: query returned no rows") }
    }

    /// The error for a result cell of an unexpected SQLite type.
    pub fn unexpected_cell_type() -> (e: DbErr)
        ensures
            e.message@ == "internal error: unexpected cell type"@,
    {
        DbErr { message: String::from_str("internal error: unexpected cell type") }
    }
}

} // verus!
