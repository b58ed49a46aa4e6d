//! JSON values and their textual form.
//!
//! `JsonValue` models the JSON trees that flow through the wire protocol
//! and the row projection. `json_text` gives the exact character sequence
//! the encoder produces (matching the conventional compact rendering:
//! no spaces, `"` `\` and control characters escaped, other characters
//! verbatim). Parsing is delegated to serde_json behind a trusted
//! declaration whose result is only ever inspected by verified code.

use vstd::prelude::*;

use crate::num::{dec_digits, int_text, push_i64, push_u64};

verus! {

#[derive(Debug, PartialEq, Eq)]
pub enum JsonValue {
    Null,
    Bool(bool),
    Int(i64),
    UInt(u64),
    /// A number that is not an `i64` (a real, or an out-of-range integer),
    /// carried as its already-rendered decimal text.
    Num(String),
    Str(String),
    Arr(Vec<JsonValue>),
    Obj(Vec<(String, JsonValue)>),
}

/// Lowercase hexadecimal digit character.
pub open spec fn hex_char(d: int) -> char {
    if d < 10 {
        crate::num::digit_char(d)
    } else if d == 10 {
        'a'
    } else if d == 11 {
        'b'
    } else if d == 12 {
        'c'
    } else if d == 13 {
        'd'
    } else if d == 14 {
        'e'
    } else {
        'f'
    }
}

/// How one character appears inside a JSON string literal.
pub open spec fn escape_char(c: char) -> Seq<char> {
    if c == '"' {
        seq!['\\', '"']
    } else if c == '\\' {
        seq!['\\', '\\']
    } else if c == '\u{8}' {
        seq!['\\', 'b']
    } else if c == '\t' {
        seq!['\\', 't']
    } else if c == '\n' {
        seq!['\\', 'n']
    } else if c == '\u{c}' {
        seq!['\\', 'f']
    } else if c == '\r' {
        seq!['\\', 'r']
    } else if (c as int) < 32 {
        seq!['\\', 'u', '0', '0', hex_char(c as int / 16), hex_char(c as int % 16)]
    } else {
        seq![c]
    }
}

/// The escaped body of a JSON string literal.
pub open spec fn escape_text(s: Seq<char>) -> Seq<char>
    decreases s.len(),
{
    if s.len() == 0 {
        Seq::empty()
    } else {
        escape_text(s.drop_last()) + escape_char(s.last())
    }
}

/// A complete JSON string literal, quotes included.
pub open spec fn string_text(s: Seq<char>) -> Seq<char> {
    seq!['"'] + escape_text(s) + seq!['"']
}

/// The exact text of a JSON value.
pub open spec fn json_text(v: JsonValue) -> Seq<char>
    decreases v, 0int,
{
    match v {
        JsonValue::Null => seq!['n', 'u', 'l', 'l'],
        JsonValue::Bool(b) => if b {
            seq!['t', 'r', 'u', 'e']
        } else {
            seq!['f', 'a', 'l', 's', 'e']
        },
        JsonValue::Int(i) => int_text(i as int),
        JsonValue::UInt(u) => dec_digits(u as int),
        JsonValue::Num(s) => s@,
        JsonValue::Str(s) => string_text(s@),
        JsonValue::Arr(elems) => seq!['['] + list_text(elems@) + seq![']'],
        JsonValue::Obj(fields) => seq!['{'] + fields_text(fields@) + seq!['}'],
    }
}

/// The comma-separated texts of array elements.
pub open spec fn list_text(elems: Seq<JsonValue>) -> Seq<char>
    decreases elems, elems.len(),
{
    if elems.len() == 0 {
        Seq::empty()
    } else if elems.len() == 1 {
        json_text(elems.last())
    } else {
        list_text(elems.drop_last()) + seq![','] + json_text(elems.last())
    }
}

/// The comma-separated `"key":value` members of an object.
pub open spec fn fields_text(fields: Seq<(String, JsonValue)>) -> Seq<char>
    decreases fields, fields.len(),
{
    if fields.len() == 0 {
        Seq::empty()
    } else if fields.len() == 1 {
        member_text(fields.last())
    } else {
        fields_text(fields.drop_last()) + seq![','] + member_text(fields.last())
    }
}

/// One `"key":value` object member.
pub open spec fn member_text(field: (String, JsonValue)) -> Seq<char>
    decreases field, 0int,
{
    string_text(field.0@) + seq![':'] + json_text(field.1)
}

fn push_hex(d: u32, out: &mut Vec<char>)
    requires
        d < 16,
    ensures
        final(out)@ == old(out)@.push(hex_char(d as int)),
{
    let c: char = if d == 0 {
        '0'
    } else if d == 1 {
        '1'
    } else if d == 2 {
        '2'
    } else if d == 3 {
        '3'
    } else if d == 4 {
        '4'
    } else if d == 5 {
        '5'
    } else if d == 6 {
        '6'
    } else if d == 7 {
        '7'
    } else if d == 8 {
        '8'
    } else if d == 9 {
        '9'
    } else if d == 10 {
        'a'
    } else if d == 11 {
        'b'
    } else if d == 12 {
        'c'
    } else if d == 13 {
        'd'
    } else if d == 14 {
        'e'
    } else {
        'f'
    };
    out.push(c);
}

fn push_escaped_char(c: char, out: &mut Vec<char>)
    ensures
        final(out)@ == old(out)@ + escape_char(c),
{
    if c == '"' {
        out.push('\\');
        out.push('"');
    } else if c == '\\' {
        out.push('\\');
        out.push('\\');
    } else if c == '\u{8}' {
        out.push('\\');
        out.push('b');
    } else if c == '\t' {
        out.push('\\');
        out.push('t');
    } else if c == '\n' {
        out.push('\\');
        out.push('n');
    } else if c == '\u{c}' {
        out.push('\\');
        out.push('f');
    } else if c == '\r' {
        out.push('\\');
        out.push('r');
    } else if (c as u32) < 32 {
        out.push('\\');
        out.push('u');
        out.push('0');
        out.push('0');
        push_hex((c as u32) / 16, out);
        push_hex((c as u32) % 16, out);
    } else {
        out.push(c);
    }
    assert(out@ =~= old(out)@ + escape_char(c));
}

/// Appends the characters of `s` unchanged.
pub fn push_str_chars(s: &str, out: &mut Vec<char>)
    ensures
        final(out)@ == old(out)@ + s@,
{
    let n = s.unicode_len();
    let mut i: usize = 0;
    while i < n
        invariant
            0 <= i <= n,
            n == s@.len(),
            out@ == old(out)@ + s@.subrange(0, i as int),
        decreases n - i,
    {
        let c = s.get_char(i);
        out.push(c);
        assert(out@ =~= old(out)@ + s@.subrange(0, i as int + 1));
        i = i + 1;
    }
    assert(s@.subrange(0, n as int) =~= s@);
}

/// Appends the escaped body of `s`.
pub fn push_escaped(s: &str, out: &mut Vec<char>)
    ensures
        final(out)@ == old(out)@ + escape_text(s@),
{
    let n = s.unicode_len();
    let mut i: usize = 0;
    while i < n
        invariant
            0 <= i <= n,
            n == s@.len(),
            out@ == old(out)@ + escape_text(s@.subrange(0, i as int)),
        decreases n - i,
    {
        let c = s.get_char(i);
        push_escaped_char(c, out);
        proof {
            let q = s@.subrange(0, i as int + 1);
            assert(q.drop_last() =~= s@.subrange(0, i as int));
            assert(q.last() == c);
            assert(out@ =~= old(out)@ + escape_text(q));
        }
        i = i + 1;
    }
    assert(s@.subrange(0, n as int) =~= s@);
}

/// Appends a complete JSON string literal for `s`.
pub fn push_json_string(s: &str, out: &mut Vec<char>)
    ensures
        final(out)@ == old(out)@ + string_text(s@),
{
    out.push('"');
    push_escaped(s, out);
    out.push('"');
    assert(out@ =~= old(out)@ + string_text(s@));
}

/// Appends the exact text of `v`.
pub fn push_json(v: &JsonValue, out: &mut Vec<char>)
    ensures
        final(out)@ == old(out)@ + json_text(*v),
    decreases *v,
{
    match v {
        JsonValue::Null => {
            out.push('n');
            out.push('u');
            out.push('l');
            out.push('l');
            assert(out@ =~= old(out)@ + json_text(*v));
        },
        JsonValue::Bool(b) => {
            if *b {
                out.push('t');
                out.push('r');
                out.push('u');
                out.push('e');
            } else {
                out.push('f');
                out.push('a');
                out.push('l');
                out.push('s');
                out.push('e');
            }
            assert(out@ =~= old(out)@ + json_text(*v));
        },
        JsonValue::Int(i) => {
            push_i64(*i, out);
        },
        JsonValue::UInt(u) => {
            push_u64(*u, out);
        },
        JsonValue::Num(s) => {
            push_str_chars(s.as_str(), out);
        },
        JsonValue::Str(s) => {
            push_json_string(s.as_str(), out);
        },
        JsonValue::Arr(elems) => {
            out.push('[');
            push_json_list(elems, elems.len(), out);
            out.push(']');
            assert(elems@.subrange(0, elems@.len() as int) =~= elems@);
            assert(out@ =~= old(out)@ + json_text(*v));
        },
        JsonValue::Obj(fields) => {
            out.push('{');
            push_json_fields(fields, fields.len(), out);
            out.push('}');
            assert(fields@.subrange(0, fields@.len() as int) =~= fields@);
            assert(out@ =~= old(out)@ + json_text(*v));
        },
    }
}

fn push_json_list(elems: &Vec<JsonValue>, n: usize, out: &mut Vec<char>)
    requires
        n <= elems@.len(),
    ensures
        final(out)@ == old(out)@ + list_text(elems@.subrange(0, n as int)),
    decreases elems@, n,
{
    if n == 0 {
        assert(out@ =~= old(out)@ + list_text(elems@.subrange(0, 0)));
        return ;
    }
    push_json_list(elems, n - 1, out);
    if n >= 2 {
        out.push(',');
    }
    push_json(&elems[n - 1], out);
    proof {
        let q = elems@.subrange(0, n as int);
        assert(q.drop_last() =~= elems@.subrange(0, n as int - 1));
        assert(q.last() == elems@[n as int - 1]);
        assert(out@ =~= old(out)@ + list_text(q));
    }
}

fn push_json_fields(fields: &Vec<(String, JsonValue)>, n: usize, out: &mut Vec<char>)
    requires
        n <= fields@.len(),
    ensures
        final(out)@ == old(out)@ + fields_text(fields@.subrange(0, n as int)),
    decreases fields@, n,
{
    if n == 0 {
        assert(out@ =~= old(out)@ + fields_text(fields@.subrange(0, 0)));
        return ;
    }
    push_json_fields(fields, n - 1, out);
    if n >= 2 {
        out.push(',');
    }
    push_json_string(fields[n - 1].0.as_str(), out);
    out.push(':');
    push_json(&fields[n - 1].1, out);
    proof {
        let q = fields@.subrange(0, n as int);
        assert(q.drop_last() =~= fields@.subrange(0, n as int - 1));
        assert(q.last() == fields@[n as int - 1]);
        assert(member_text(q.last()) =~= string_text(fields@[n as int - 1].0@) + seq![':']
            + json_text(fields@[n as int - 1].1));
        assert(out@ =~= old(out)@ + fields_text(q));
    }
}

/// Appends the comma-separated `"key":value` members of an object,
/// braces not included.
pub fn push_object_members(fields: &Vec<(String, JsonValue)>, out: &mut Vec<char>)
    ensures
        final(out)@ == old(out)@ + fields_text(fields@),
{
    let n = fields.len();
    push_json_fields(fields, n, out);
    proof {
        assert(fields@.subrange(0, fields@.len() as int) =~= fields@);
    }
}

/// Relies on String's FromIterator instance: collecting characters yields
/// the string of exactly those characters, in order.
#[verifier::external_body]
pub(crate) fn chars_to_string(v: &Vec<char>) -> (s: String)
    ensures
        s@ == v@,
{
    v.iter().collect()
}

/// Renders `v` as its exact JSON text.
pub fn json_to_string(v: &JsonValue) -> (s: String)
    ensures
        s@ == json_text(*v),
{
    let mut out: Vec<char> = Vec::new();
    push_json(v, &mut out);
    chars_to_string(&out)
}

#[verifier::external_type_specification]
#[verifier::external_body]
pub struct ExSerdeValue(serde_json::Value);

/// What serde_json's parser returns for a given text, converted to the
/// library's value type. Objects come back with unique keys in serde_json's
/// map order; numbers that fit an `i64` come back as `Int`, all others as
/// their rendered text.
pub uninterp spec fn json_parse_of(s: Seq<char>) -> Option<JsonValue>;

/// Converts serde_json's tree, variant for variant: numbers that fit an
/// `i64` become `Int`, all others keep their rendered text.
#[verifier::external_body]
fn value_to_json(v: serde_json::Value) -> JsonValue {
    match v {
        serde_json::Value::Null => JsonValue::Null,
        serde_json::Value::Bool(b) => JsonValue::Bool(b),
        serde_json::Value::Number(n) => match n.as_i64() {
            Some(i) => JsonValue::Int(i),
            None => JsonValue::Num(n.to_string()),
        },
        serde_json::Value::String(s) => JsonValue::Str(s),
        serde_json::Value::Array(a) => JsonValue::Arr(a.into_iter().map(value_to_json).collect()),
        serde_json::Value::Object(o) => JsonValue::Obj(
            o.into_iter().map(|(k, x)| (k, value_to_json(x))).collect(),
        ),
    }
}

/// Relies on serde_json::from_str::<Value>: whether a text parses, and the
/// tree it parses to, are functions of the text alone.
#[verifier::external_body]
pub(crate) fn parse_json(s: &str) -> (r: Option<JsonValue>)
    ensures
        r == json_parse_of(s@),
{
    match serde_json::from_str::<serde_json::Value>(s) {
        Ok(v) => Some(value_to_json(v)),
        Err(_) => None,
    }
}

} // verus!
