//! Decimal numerals: rendering integers as digit sequences and parsing
//! digit strings, with exact character-level specifications.

use vstd::prelude::*;

verus! {

/// The character for a single decimal digit value.
pub open spec fn digit_char(d: int) -> char {
    if d == 0 {
        '0'
    } else if d == 1 {
        '1'
    } else if d == 2 {
        '2'
    } else if d == 3 {
        '3'
    } else if d == 4 {
        '4'
    } else if d == 5 {
        '5'
    } else if d == 6 {
        '6'
    } else if d == 7 {
        '7'
    } else if d == 8 {
        '8'
    } else {
        '9'
    }
}

/// Decimal rendering of a nonnegative integer, most significant digit first.
pub open spec fn dec_digits(n: int) -> Seq<char>
    decreases n,
{
    if n < 10 {
        seq![digit_char(n)]
    } else {
        dec_digits(n / 10).push(digit_char(n % 10))
    }
}

/// Decimal rendering of a signed integer: a leading '-' for negatives.
pub open spec fn int_text(n: int) -> Seq<char> {
    if n < 0 {
        seq!['-'] + dec_digits(-n)
    } else {
        dec_digits(n)
    }
}

fn push_digit(d: u64, out: &mut Vec<char>)
    requires
        d < 10,
    ensures
        final(out)@ == old(out)@.push(digit_char(d as int)),
{
    let c: char = if d == 0 {
        '0'
    } else if d == 1 {
        '1'
    } else if d == 2 {
        '2'
    } else if d == 3 {
        '3'
    } else if d == 4 {
        '4'
    } else if d == 5 {
        '5'
    } else if d == 6 {
        '6'
    } else if d == 7 {
        '7'
    } else if d == 8 {
        '8'
    } else {
        '9'
    };
    out.push(c);
}

/// Appends the decimal rendering of `n` to `out`.
pub fn push_u64(n: u64, out: &mut Vec<char>)
    ensures
        final(out)@ == old(out)@ + dec_digits(n as int),
    decreases n,
{
    if n < 10 {
        push_digit(n, out);
        assert(out@ =~= old(out)@ + dec_digits(n as int));
    } else {
        push_u64(n / 10, out);
        push_digit(n % 10, out);
        assert(out@ =~= old(out)@ + dec_digits(n as int));
    }
}

/// Appends the decimal rendering of `n`, with a '-' sign for negatives.
pub fn push_i64(n: i64, out: &mut Vec<char>)
    ensures
        final(out)@ == old(out)@ + int_text(n as int),
{
    if n >= 0 {
        push_u64(n as u64, out);
    } else {
        out.push('-');
        let magnitude: u64 = if n == i64::MIN {
            9223372036854775808u64
        } else {
            (-n) as u64
        };
        assert(magnitude as int == -(n as int));
        push_u64(magnitude, out);
        assert(out@ =~= old(out)@ + int_text(n as int));
    }
}

/// Whether `c` is a decimal digit.
pub open spec fn is_digit(c: char) -> bool {
    48 <= c as int && c as int <= 57
}

/// Whether every character of `s` is a decimal digit.
pub open spec fn all_digits(s: Seq<char>) -> bool {
    forall|i: int| 0 <= i < s.len() ==> is_digit(#[trigger] s[i])
}

/// The integer value of a digit string, most significant digit first.
pub open spec fn digits_val(s: Seq<char>) -> int
    decreases s.len(),
{
    if s.len() == 0 {
        0
    } else {
        digits_val(s.drop_last()) * 10 + (s.last() as int - 48)
    }
}

pub proof fn lemma_digits_val_nonneg(s: Seq<char>)
    requires
        all_digits(s),
    ensures
        digits_val(s) >= 0,
    decreases s.len(),
{
    if s.len() > 0 {
        assert(all_digits(s.drop_last())) by {
            assert(forall|i: int|
                0 <= i < s.len() - 1 ==> s.drop_last()[i] == #[trigger] s[i]);
        }
        lemma_digits_val_nonneg(s.drop_last());
    }
}

/// Extending a digit string never decreases its value.
pub proof fn lemma_digits_val_prefix_le(s: Seq<char>, i: int, j: int)
    requires
        all_digits(s),
        0 <= i <= j <= s.len(),
    ensures
        digits_val(s.subrange(0, i)) <= digits_val(s.subrange(0, j)),
    decreases j - i,
{
    if i < j {
        let t = s.subrange(0, j);
        assert(t.drop_last() =~= s.subrange(0, j - 1));
        assert(all_digits(t.drop_last()));
        lemma_digits_val_nonneg(t.drop_last());
        lemma_digits_val_prefix_le(s, i, j - 1);
    }
}

/// Parses the first `end` characters of `s` as a nonnegative decimal
/// integer. `None` exactly when the prefix is empty, holds a non-digit,
/// or its value does not fit in `i64`.
pub fn parse_decimal_prefix(s: &str, end: usize) -> (r: Option<i64>)
    requires
        end <= s@.len(),
    ensures
        ({
            let p = s@.subrange(0, end as int);
            match r {
                Some(v) => end > 0 && all_digits(p) && v == digits_val(p),
                None => end == 0 || !all_digits(p) || digits_val(p) > i64::MAX,
            }
        }),
{
    if end == 0 {
        return None;
    }
    let ghost p = s@.subrange(0, end as int);
    let mut acc: u64 = 0;
    let mut i: usize = 0;
    while i < end
        invariant
            0 <= i <= end,
            end <= s@.len(),
            p == s@.subrange(0, end as int),
            all_digits(p.subrange(0, i as int)),
            acc == digits_val(p.subrange(0, i as int)),
            acc <= i64::MAX,
        decreases end - i,
    {
        let c = s.get_char(i);
        assert(c == p[i as int]);
        if c < '0' || c > '9' {
            assert(!is_digit(p[i as int]));
            return None;
        }
        let d: u64 = (c as u32 as u64) - 48;
        assert(is_digit(p[i as int]) && d == c as int - 48 && d < 10);
        if acc > 922337203685477580u64 || (acc == 922337203685477580u64 && d > 7) {
            // the running value already exceeds i64::MAX
            proof {
                let q = p.subrange(0, i as int + 1);
                assert(q.drop_last() =~= p.subrange(0, i as int));
                assert(digits_val(q) == acc * 10 + d);
                assert(digits_val(q) > i64::MAX);
                if all_digits(p) {
                    lemma_digits_val_prefix_le(p, i as int + 1, p.len() as int);
                    assert(p.subrange(0, p.len() as int) =~= p);
                }
            }
            return None;
        }
        acc = acc * 10 + d;
        proof {
            let q = p.subrange(0, i as int + 1);
            assert(q.drop_last() =~= p.subrange(0, i as int));
            assert(digits_val(q) == acc);
        }
        i = i + 1;
    }
    assert(p.subrange(0, end as int) =~= p);
    Some(acc as i64)
}

} // verus!
