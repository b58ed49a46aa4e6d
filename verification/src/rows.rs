//! Projection of SQLite result rows into JSON.
//!
//! A result cell arrives as a plain `CellValue`: NULL, a 64-bit integer,
//! a real already rendered as decimal text, or text (blobs are UTF-8
//! decoded before they reach this type). Every row becomes a JSON object
//! keyed by column name in statement order; every result set becomes a
//! JSON array of such objects.

use vstd::prelude::*;

use crate::json::JsonValue;

verus! {

/// One result cell, as handed over by the database layer.
#[derive(Debug, PartialEq, Eq)]
pub enum CellValue {
    Null,
    Integer(i64),
    /// A real number, carried as its rendered JSON number text.
    Real(String),
    Text(String),
}

/// One result row: column names paired with cells, in statement order.
pub type SqlRow = Vec<(String, CellValue)>;

/// The JSON projection of one cell: NULL to null, INTEGER to a number,
/// REAL to its rendered number text, TEXT to a string.
pub open spec fn cell_json_matches(c: CellValue, v: JsonValue) -> bool {
    match (c, v) {
        (CellValue::Null, JsonValue::Null) => true,
        (CellValue::Integer(i), JsonValue::Int(j)) => i == j,
        (CellValue::Real(s), JsonValue::Num(t)) => s@ == t@,
        (CellValue::Text(s), JsonValue::Str(t)) => s@ == t@,
        _ => false,
    }
}

/// The JSON projection of one row: an object with one member per cell,
/// keyed by column name, in order.
pub open spec fn row_json_matches(r: Seq<(String, CellValue)>, v: JsonValue) -> bool {
    match v {
        JsonValue::Obj(fields) => fields@.len() == r.len() && forall|i: int|
            0 <= i < r.len() ==> (#[trigger] fields@[i]).0@ == r[i].0@ && cell_json_matches(
                r[i].1,
                fields@[i].1,
            ),
        _ => false,
    }
}

/// The JSON projection of a result set: an array with one object per row,
/// in order.
pub open spec fn rows_json_matches(rows: Seq<SqlRow>, v: JsonValue) -> bool {
    match v {
        JsonValue::Arr(elems) => elems@.len() == rows.len() && forall|i: int|
            0 <= i < rows.len() ==> row_json_matches(rows[i]@, #[trigger] elems@[i]),
        _ => false,
    }
}

/// A JSON array whose elements are all objects.
pub open spec fn is_row_array(v: JsonValue) -> bool {
    match v {
        JsonValue::Arr(elems) => forall|i: int|
            0 <= i < elems@.len() ==> (#[trigger] elems@[i]) is Obj,
        _ => false,
    }
}

fn cell_to_json(c: &CellValue) -> (v: JsonValue)
    ensures
        cell_json_matches(*c, v),
{
    match c {
        CellValue::Null => JsonValue::Null,
        CellValue::Integer(i) => JsonValue::Int(*i),
        CellValue::Real(s) => JsonValue::Num(s.clone()),
        CellValue::Text(s) => JsonValue::Str(s.clone()),
    }
}

/// Projects one row to its JSON object.
pub fn row_to_json(r: &SqlRow) -> (v: JsonValue)
    ensures
        row_json_matches(r@, v),
        v is Obj,
{
    let mut fields: Vec<(String, JsonValue)> = Vec::new();
    let mut i: usize = 0;
    while i < r.len()
        invariant
            0 <= i <= r@.len(),
            fields@.len() == i,
            forall|j: int|
                0 <= j < i ==> (#[trigger] fields@[j]).0@ == r@[j].0@ && cell_json_matches(
                    r@[j].1,
                    fields@[j].1,
                ),
        decreases r@.len() - i,
    {
        let name = r[i].0.clone();
        let cell = cell_to_json(&r[i].1);
        fields.push((name, cell));
        i = i + 1;
    }
    JsonValue::Obj(fields)
}

/// Projects a result set to its JSON array of row objects.
pub fn rows_to_json(rows: &Vec<SqlRow>) -> (v: JsonValue)
    ensures
        rows_json_matches(rows@, v),
        is_row_array(v),
{
    let mut elems: Vec<JsonValue> = Vec::new();
    let mut i: usize = 0;
    while i < rows.len()
        invariant
            0 <= i <= rows@.len(),
            elems@.len() == i,
            forall|j: int| 0 <= j < i ==> row_json_matches(rows@[j]@, #[trigger] elems@[j]),
            forall|j: int| 0 <= j < i ==> (#[trigger] elems@[j]) is Obj,
        decreases rows@.len() - i,
    {
        let row = row_to_json(&rows[i]);
        elems.push(row);
        i = i + 1;
    }
    JsonValue::Arr(elems)
}

} // verus!
