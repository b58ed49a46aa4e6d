//! Civil UTC time, and its compact `YYYYMMDDHHMMSS` rendering used for
//! migration identifiers.

use vstd::prelude::*;

use chrono::Datelike;
use chrono::Timelike;

use crate::num::{dec_digits, int_text, push_i64, push_u64};

verus! {

/// A UTC instant broken into civil fields.
#[derive(Debug, Clone, Copy, PartialEq, Eq, Structural)]
pub struct CivilTime {
    pub year: i64,
    pub month: u8,
    pub day: u8,
    pub hour: u8,
    pub minute: u8,
    pub second: u8,
}

/// The field ranges chrono's accessors guarantee.
pub open spec fn civil_in_range(c: CivilTime) -> bool {
    &&& 1 <= c.month <= 12
    &&& 1 <= c.day <= 31
    &&& c.hour <= 23
    &&& c.minute <= 59
    &&& c.second <= 59
}

/// Two decimal digits, zero-padded, for values below 100.
pub open spec fn pad2(n: int) -> Seq<char> {
    if 0 <= n < 10 {
        seq!['0'] + dec_digits(n)
    } else {
        dec_digits(n)
    }
}

/// At least four decimal digits, zero-padded for years 0 through 9999,
/// plain decimal text outside that range.
pub open spec fn pad4(n: int) -> Seq<char> {
    if 0 <= n < 10 {
        seq!['0', '0', '0'] + dec_digits(n)
    } else if 10 <= n < 100 {
        seq!['0', '0'] + dec_digits(n)
    } else if 100 <= n < 1000 {
        seq!['0'] + dec_digits(n)
    } else {
        int_text(n)
    }
}

/// The compact `YYYYMMDDHHMMSS` rendering of a civil instant.
pub open spec fn compact_text(c: CivilTime) -> Seq<char> {
    pad4(c.year as int) + pad2(c.month as int) + pad2(c.day as int) + pad2(c.hour as int) + pad2(
        c.minute as int,
    ) + pad2(c.second as int)
}

/// A string shaped like a compact timestamp of an in-range civil instant.
pub open spec fn timestamp_shaped(s: Seq<char>) -> bool {
    exists|c: CivilTime| civil_in_range(c) && s == compact_text(c)
}

fn push_pad2(n: u8, out: &mut Vec<char>)
    requires
        n < 100,
    ensures
        final(out)@ == old(out)@ + pad2(n as int),
{
    if n < 10 {
        out.push('0');
    }
    push_u64(n as u64, out);
    assert(out@ =~= old(out)@ + pad2(n as int));
}

fn push_pad4(n: i64, out: &mut Vec<char>)
    ensures
        final(out)@ == old(out)@ + pad4(n as int),
{
    if n >= 0 && n < 10 {
        out.push('0');
        out.push('0');
        out.push('0');
    } else if n >= 10 && n < 100 {
        out.push('0');
        out.push('0');
    } else if n >= 100 && n < 1000 {
        out.push('0');
    }
    push_i64(n, out);
    assert(out@ =~= old(out)@ + pad4(n as int));
}

/// Renders a civil instant in compact `YYYYMMDDHHMMSS` form.
pub fn format_compact(c: &CivilTime) -> (s: String)
    requires
        civil_in_range(*c),
    ensures
        s@ == compact_text(*c),
{
    let mut out: Vec<char> = Vec::new();
    push_pad4(c.year, &mut out);
    push_pad2(c.month, &mut out);
    push_pad2(c.day, &mut out);
    push_pad2(c.hour, &mut out);
    push_pad2(c.minute, &mut out);
    push_pad2(c.second, &mut out);
    assert(out@ =~= compact_text(*c));
    crate::json::chars_to_string(&out)
}

/// Relies on chrono's Utc::now and the Datelike/Timelike accessors: the
/// current UTC instant, with month in 1..=12, day in 1..=31, hour below 24
/// and minute and second below 60.
#[verifier::external_body]
pub(crate) fn utc_now_civil() -> (c: CivilTime)
    ensures
        civil_in_range(c),
{
    let n = chrono::Utc::now();
    CivilTime {
        year: n.year() as i64,
        month: n.month() as u8,
        day: n.day() as u8,
        hour: n.hour() as u8,
        minute: n.minute() as u8,
        second: n.second() as u8,
    }
}

} // verus!
