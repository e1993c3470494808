//! The persistence version that the catalog records, and whether the catalog can be opened
//! at it.
use vstd::prelude::*;
use crate::setup_error::WorkspaceSetupError;

verus! {

/// The persistence version that this catalog writes.
pub const CURRENT_PERSISTENCE_VERSION: i64 = 2;

/// The value of a text of decimal digits.
pub open spec fn digits_value(digits: Seq<char>) -> int
    decreases digits.len(),
{
    if digits.len() == 0 {
        0
    } else {
        digits_value(digits.drop_last()) * 10 + (digits.last() as int - '0' as int)
    }
}

/// Whether every character of the text is a decimal digit.
pub open spec fn all_digits(text: Seq<char>) -> bool {
    forall|i: int| 0 <= i < text.len() ==> '0' <= #[trigger] text[i] <= '9'
}

/// The text without its leading `+` or `-` sign, where it has one.
pub open spec fn unsigned_part(text: Seq<char>) -> Seq<char> {
    if text.len() > 0 && (text[0] == '-' || text[0] == '+') { text.drop_first() } else { text }
}

/// The integer that a text names as `i64` parsing reads it: an optional `+` or `-` sign, then
/// one or more decimal digits, and a value that fits in an `i64`.
pub open spec fn spec_parse_i64(text: Seq<char>) -> Option<i64> {
    let digits = unsigned_part(text);
    let value = if text.len() > 0 && text[0] == '-' { -digits_value(digits) } else { digits_value(digits) };
    if digits.len() == 0 || !all_digits(digits) {
        None
    } else if i64::MIN <= value <= i64::MAX {
        Some(value as i64)
    } else {
        None
    }
}

proof fn lemma_digits_value_grows(t: Seq<char>, k: int)
    requires
        0 <= k <= t.len(),
        all_digits(t),
    ensures
        0 <= digits_value(t.subrange(0, k)) <= digits_value(t),
    decreases t.len(),
{
    if k < t.len() {
        let u = t.drop_last();
        assert(u.subrange(0, k) =~= t.subrange(0, k));
        assert forall|i: int| 0 <= i < u.len() implies '0' <= #[trigger] u[i] <= '9' by {
            assert(u[i] == t[i]);
        }
        lemma_digits_value_grows(u, k);
    } else {
        assert(t.subrange(0, k) =~= t);
        if t.len() > 0 {
            let u = t.drop_last();
            assert forall|i: int| 0 <= i < u.len() implies '0' <= #[trigger] u[i] <= '9' by {
                assert(u[i] == t[i]);
            }
            lemma_digits_value_grows(u, u.len() as int);
            assert(u.subrange(0, u.len() as int) =~= u);
        }
    }
}

/// Reads an `i64` as `str::parse` does: an optional sign, then one or more decimal digits
/// whose value fits.
fn parse_i64(text: &str) -> (r: Option<i64>)
    ensures
        r == spec_parse_i64(text@),
{
    let n = text.unicode_len();
    if n == 0 {
        return None;
    }
    let first = text.get_char(0);
    let negative = first == '-';
    let start: usize = if first == '-' || first == '+' { 1 } else { 0 };
    let ghost digits = unsigned_part(text@);
    assert(digits =~= text@.subrange(start as int, n as int));
    if start == n {
        return None;
    }
    let mut magnitude: i128 = 0;
    let mut i: usize = start;
    while i < n
        invariant
            n == text@.len(),
            n > 0,
            start <= i <= n,
            start < n,
            negative == (text@[0] == '-'),
            digits == unsigned_part(text@),
            digits == text@.subrange(start as int, n as int),
            forall|j: int| start <= j < i ==> '0' <= #[trigger] text@[j] <= '9',
            magnitude == digits_value(text@.subrange(start as int, i as int)),
            0 <= magnitude <= 9223372036854775808,
        decreases n - i,
    {
        let c = text.get_char(i);
        if c < '0' || c > '9' {
            assert(digits[i - start] == c);
            assert(!('0' <= digits[i - start] <= '9'));
            return None;
        }
        let digit = (c as u32 - '0' as u32) as i128;
        proof {
            let next = text@.subrange(start as int, i + 1);
            assert(next.drop_last() =~= text@.subrange(start as int, i as int));
            assert(next.last() == c);
        }
        magnitude = magnitude * 10 + digit;
        i = i + 1;
        if magnitude > 9223372036854775808 {
            proof {
                let prefix = text@.subrange(start as int, i as int);
                if all_digits(digits) {
                    lemma_digits_value_grows(digits, i - start);
                    assert(digits.subrange(0, i - start) =~= prefix);
                }
            }
            return None;
        }
    }
    proof {
        assert(text@.subrange(start as int, i as int) =~= digits);
        assert forall|j: int| 0 <= j < digits.len() implies '0' <= #[trigger] digits[j] <= '9' by {
            assert(digits[j] == text@[j + start]);
        }
        assert(all_digits(digits));
    }
    if negative {
        Some((0 - magnitude) as i64)
    } else if magnitude <= 9223372036854775807 {
        Some(magnitude as i64)
    } else {
        None
    }
}

/// The persistence version recorded in the catalog's metadata: a catalog that records none is
/// at version 0, and a recorded text that is no integer fails the migration.
pub fn persistence_version_from_text(value: Option<&str>) -> (r: Result<i64, WorkspaceSetupError>)
    ensures
        match spec_parse_i64(match value { Some(v) => v@, None => "0"@ }) {
            Some(v) => r == Ok::<i64, WorkspaceSetupError>(v),
            None => r == Err::<i64, WorkspaceSetupError>(WorkspaceSetupError::WorkspaceCatalogMigrationFailed),
        },
{
    let text = match value {
        Some(v) => v,
        None => "0",
    };
    match parse_i64(text) {
        Some(version) => Ok(version),
        None => Err(WorkspaceSetupError::WorkspaceCatalogMigrationFailed),
    }
}

/// A catalog can be opened at a version no newer than this catalog's; a newer one fails the
/// migration.
pub fn check_persistence_version(version: i64) -> (r: Result<(), WorkspaceSetupError>)
    ensures
        r is Ok <==> version <= CURRENT_PERSISTENCE_VERSION,
        r is Err ==> r == Err::<(), WorkspaceSetupError>(WorkspaceSetupError::WorkspaceCatalogMigrationFailed),
{
    if version > CURRENT_PERSISTENCE_VERSION {
        Err(WorkspaceSetupError::WorkspaceCatalogMigrationFailed)
    } else {
        Ok(())
    }
}

} // verus!
