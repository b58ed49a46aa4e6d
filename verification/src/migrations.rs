//! Startup reconciliation: migration file names, version ordering, and the
//! plan that decides which on-disk migrations to skip, record or apply.

use vstd::prelude::*;

use crate::err::DbErr;
use crate::num::{all_digits, digits_val, int_text, parse_decimal_prefix, push_i64};
use crate::util::str_concat;
use vstd::string::*;

verus! {

/// Whether a file name has the migration shape: one or more decimal digits
/// followed by ".sql".
pub open spec fn is_migration_name(s: Seq<char>) -> bool {
    &&& s.len() >= 5
    &&& s.subrange(s.len() - 4, s.len() as int) == ".sql"@
    &&& all_digits(s.subrange(0, s.len() - 4))
}

/// The version encoded in a migration-shaped name.
pub open spec fn migration_name_version(s: Seq<char>) -> int {
    digits_val(s.subrange(0, s.len() - 4))
}

/// Parses a migrations-directory file name. `Ok(None)` for a name that is
/// not migration-shaped (it is ignored); `Ok(Some(v))` for `<v>.sql`;
/// `Err` for a migration-shaped name whose version overflows an `i64`
/// (startup fails on such a file).
pub fn parse_migration_filename(name: &str) -> (r: Result<Option<i64>, DbErr>)
    ensures
        !is_migration_name(name@) ==> (r matches Ok(o) && o is None),
        is_migration_name(name@) && migration_name_version(name@) <= i64::MAX ==> (r matches Ok(o)
            && o matches Some(v) && v == migration_name_version(name@)),
        is_migration_name(name@) && migration_name_version(name@) > i64::MAX ==> r is Err,
{
    let n = name.unicode_len();
    if n < 5 {
        assert(!is_migration_name(name@));
        return Ok(None);
    }
    let c1 = name.get_char(n - 4);
    let c2 = name.get_char(n - 3);
    let c3 = name.get_char(n - 2);
    let c4 = name.get_char(n - 1);
    let ghost tail = name@.subrange(n - 4, n as int);
    proof {
        reveal_strlit(".sql");
        assert(tail.len() == 4);
        assert(tail[0] == c1 && tail[1] == c2 && tail[2] == c3 && tail[3] == c4);
        assert(".sql"@[0] == '.' && ".sql"@[1] == 's' && ".sql"@[2] == 'q' && ".sql"@[3] == 'l');
    }
    if !(c1 == '.' && c2 == 's' && c3 == 'q' && c4 == 'l') {
        assert(tail != ".sql"@);
        return Ok(None);
    }
    assert(tail =~= ".sql"@);
    match parse_decimal_prefix(name, n - 4) {
        Some(v) => Ok(Some(v)),
        None => {
            if all_digits_exec(name, n - 4) {
                // digits, but the value overflows an i64
                Err(DbErr {
                    message: str_concat("migration version out of range: ", name),
                })
            } else {
                Ok(None)
            }
        },
    }
}

fn all_digits_exec(s: &str, end: usize) -> (r: bool)
    requires
        end <= s@.len(),
    ensures
        r == all_digits(s@.subrange(0, end as int)),
{
    let mut i: usize = 0;
    while i < end
        invariant
            0 <= i <= end,
            end <= s@.len(),
            forall|j: int| 0 <= j < i ==> crate::num::is_digit(#[trigger] s@.subrange(
                0,
                end as int,
            )[j]),
        decreases end - i,
    {
        let c = s.get_char(i);
        if c < '0' || c > '9' {
            assert(!crate::num::is_digit(s@.subrange(0, end as int)[i as int]));
            return false;
        }
        i = i + 1;
    }
    true
}

/// The file name `<v>.sql` for a version.
pub fn migration_file_name(version: i64) -> (s: String)
    ensures
        s@ == int_text(version as int) + ".sql"@,
{
    let mut out: Vec<char> = Vec::new();
    push_i64(version, &mut out);
    crate::json::push_str_chars(".sql", &mut out);
    crate::json::chars_to_string(&out)
}

/// A file name built from a nonnegative version parses back to exactly
/// that version: the filename discipline is lossless for real versions.
pub proof fn lemma_migration_name_round_trip(version: i64, s: Seq<char>)
    requires
        version >= 0,
        s == int_text(version as int) + ".sql"@,
    ensures
        is_migration_name(s),
        migration_name_version(s) == version as int,
{
    reveal_strlit(".sql");
    lemma_dec_digits_all_digits(version as int);
    assert(s.subrange(s.len() - 4, s.len() as int) =~= ".sql"@);
    assert(s.subrange(0, s.len() - 4) =~= crate::num::dec_digits(version as int));
    lemma_digits_val_inverse(version as int);
}

/// Every character of a decimal rendering is a digit.
pub proof fn lemma_dec_digits_all_digits(n: int)
    ensures
        n >= 0 ==> all_digits(crate::num::dec_digits(n)),
        crate::num::dec_digits(n).len() >= 1,
    decreases n,
{
    if n >= 10 {
        lemma_dec_digits_all_digits(n / 10);
    }
}

/// The code of a digit character is 48 plus its value.
pub proof fn lemma_digit_char_code(d: int)
    requires
        0 <= d <= 9,
    ensures
        crate::num::digit_char(d) as int == 48 + d,
{
}

/// Rendering then reading a nonnegative integer gives it back.
pub proof fn lemma_digits_val_inverse(n: int)
    requires
        n >= 0,
    ensures
        digits_val(crate::num::dec_digits(n)) == n,
    decreases n,
{
    let d = crate::num::dec_digits(n);
    if n < 10 {
        lemma_digit_char_code(n);
        assert(d =~= seq![crate::num::digit_char(n)]);
        assert(d.drop_last() =~= Seq::<char>::empty());
        assert(d.last() == crate::num::digit_char(n));
        assert(digits_val(d) == digits_val(d.drop_last()) * 10 + (d.last() as int - 48));
    } else {
        lemma_digits_val_inverse(n / 10);
        lemma_digit_char_code(n % 10);
        assert(d.drop_last() =~= crate::num::dec_digits(n / 10));
        assert(d.last() == crate::num::digit_char(n % 10));
        assert(digits_val(d) == digits_val(d.drop_last()) * 10 + (d.last() as int - 48));
        assert(digits_val(d) == (n / 10) * 10 + (n % 10));
    }
}

/// What reconciliation does with one on-disk version.
#[derive(Debug, PartialEq, Eq, Structural)]
pub enum MigrationAction {
    /// Already recorded: nothing to do.
    Skip,
    /// Below the snapshot's high-water mark on a fresh database: record it
    /// as applied without running it (the snapshot already contains it).
    RecordOnly,
    /// Run the file's DDL as a migration.
    Apply,
}

/// The greatest element, or 0 for an empty sequence.
pub open spec fn max_or_zero(s: Seq<i64>) -> int
    decreases s.len(),
{
    if s.len() == 0 {
        0
    } else if s.last() as int >= max_or_zero(s.drop_last()) {
        s.last() as int
    } else {
        max_or_zero(s.drop_last())
    }
}

/// The decision for one version: recorded versions are skipped; on a fresh
/// database a version below the applied high-water mark is recorded without
/// executing; everything else is applied.
pub open spec fn action_for(fresh_db: bool, applied: Seq<i64>, v: i64) -> MigrationAction {
    if applied.contains(v) {
        MigrationAction::Skip
    } else if fresh_db && (v as int) < max_or_zero(applied) {
        MigrationAction::RecordOnly
    } else {
        MigrationAction::Apply
    }
}

fn max_or_zero_exec(s: &Vec<i64>) -> (r: i64)
    ensures
        r as int == max_or_zero(s@),
{
    let mut r: i64 = 0;
    let mut i: usize = 0;
    assert(s@.subrange(0, 0) =~= Seq::<i64>::empty());
    while i < s.len()
        invariant
            0 <= i <= s@.len(),
            r as int == max_or_zero(s@.subrange(0, i as int)),
        decreases s@.len() - i,
    {
        let x = s[i];
        let next: i64 = if x >= r { x } else { r };
        proof {
            let cur = s@.subrange(0, i as int + 1);
            assert(cur.drop_last() =~= s@.subrange(0, i as int));
            assert(cur.last() == s@[i as int]);
        }
        r = next;
        i = i + 1;
    }
    assert(s@.subrange(0, s@.len() as int) =~= s@);
    r
}

fn contains_version(s: &Vec<i64>, v: i64) -> (r: bool)
    ensures
        r == s@.contains(v),
{
    let mut i: usize = 0;
    while i < s.len()
        invariant
            0 <= i <= s@.len(),
            forall|j: int| 0 <= j < i ==> s@[j] != v,
        decreases s@.len() - i,
    {
        if s[i] == v {
            return true;
        }
        i = i + 1;
    }
    assert(!s@.contains(v));
    false
}

/// The reconciliation plan: for each on-disk version, in the given order,
/// the action reconciliation takes.
pub fn plan_migrations(fresh_db: bool, applied: &Vec<i64>, versions: &Vec<i64>) -> (plan: Vec<
    (i64, MigrationAction),
>)
    ensures
        plan@.len() == versions@.len(),
        forall|i: int|
            0 <= i < versions@.len() ==> #[trigger] plan@[i] == (
                versions@[i],
                action_for(fresh_db, applied@, versions@[i]),
            ),
{
    let maxv = max_or_zero_exec(applied);
    let mut plan: Vec<(i64, MigrationAction)> = Vec::new();
    let mut i: usize = 0;
    while i < versions.len()
        invariant
            0 <= i <= versions@.len(),
            plan@.len() == i,
            maxv as int == max_or_zero(applied@),
            forall|j: int|
                0 <= j < i ==> #[trigger] plan@[j] == (
                    versions@[j],
                    action_for(fresh_db, applied@, versions@[j]),
                ),
        decreases versions@.len() - i,
    {
        let v = versions[i];
        let action = if contains_version(applied, v) {
            MigrationAction::Skip
        } else if fresh_db && v < maxv {
            MigrationAction::RecordOnly
        } else {
            MigrationAction::Apply
        };
        plan.push((v, action));
        i = i + 1;
    }
    plan
}

/// Snapshot reconciliation: on a fresh database whose recorded versions
/// come from the snapshot, an unrecorded version below the high-water mark
/// is recorded without executing, and an unrecorded version above it is
/// applied.
pub proof fn lemma_snapshot_reconciliation(applied: Seq<i64>, v: i64)
    requires
        !applied.contains(v),
    ensures
        (v as int) < max_or_zero(applied) ==> action_for(true, applied, v)
            == MigrationAction::RecordOnly,
        (v as int) > max_or_zero(applied) ==> action_for(true, applied, v)
            == MigrationAction::Apply,
{
}

/// Whether a sequence is ascending.
pub open spec fn sorted(s: Seq<i64>) -> bool {
    forall|i: int, j: int| 0 <= i < j < s.len() ==> s[i] <= s[j]
}

/// Sorts versions ascending (selection of minima), keeping the multiset of
/// elements.
pub fn sort_versions(input: Vec<i64>) -> (out: Vec<i64>)
    ensures
        sorted(out@),
        out@.to_multiset() == input@.to_multiset(),
        out@.len() == input@.len(),
{
    broadcast use vstd::seq_lib::group_to_multiset_ensures;

    let mut src = input;
    let mut out: Vec<i64> = Vec::new();
    proof {
        assert(out@.to_multiset().add(src@.to_multiset()) =~= input@.to_multiset());
    }
    while src.len() > 0
        invariant
            out@.to_multiset().add(src@.to_multiset()) == input@.to_multiset(),
            out@.len() + src@.len() == input@.len(),
            sorted(out@),
            forall|i: int, j: int|
                0 <= i < out@.len() && 0 <= j < src@.len() ==> out@[i] <= src@[j],
        decreases src@.len(),
    {
        let mut mi: usize = 0;
        let mut k: usize = 1;
        while k < src.len()
            invariant
                0 <= mi < src@.len(),
                mi < k <= src@.len() || (k <= src@.len() && mi == 0),
                forall|t: int| 0 <= t < k ==> src@[mi as int] <= src@[t],
            decreases src@.len() - k,
        {
            if src[k] < src[mi] {
                mi = k;
            }
            k = k + 1;
        }
        let ghost old_src = src@;
        let ghost old_out = out@;
        let x = src.remove(mi);
        out.push(x);
        proof {
            broadcast use vstd::seq_lib::group_to_multiset_ensures;

            assert(src@.to_multiset() =~= old_src.to_multiset().remove(x));
            assert(out@.to_multiset() =~= old_out.to_multiset().insert(x));
            assert(out@.to_multiset().add(src@.to_multiset()) =~= input@.to_multiset());
            assert(forall|j: int|
                0 <= j < src@.len() ==> x <= #[trigger] src@[j]) by {
                assert(forall|j: int|
                    0 <= j < src@.len() ==> src@[j] == old_src[if j < mi as int {
                        j
                    } else {
                        j + 1
                    }]);
            }
            assert(sorted(out@));
        }
    }
    out
}

} // verus!
