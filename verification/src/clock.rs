//! The wall clock, read through `chrono`, and the shapes of the texts it
//! renders the time as.

use vstd::prelude::*;
use vstd::string::*;

verus! {

/// An ASCII decimal digit.
pub open spec fn is_ascii_digit(c: char) -> bool {
    '0' <= c <= '9'
}

/// Every character is an ASCII decimal digit.
pub open spec fn all_digits(s: Seq<char>) -> bool {
    forall|i: int| 0 <= i < s.len() ==> is_ascii_digit(#[trigger] s[i])
}

/// Two digits at `i` and `i + 1`.
pub open spec fn two_digits(s: Seq<char>, i: int) -> bool {
    is_ascii_digit(s[i]) && is_ascii_digit(s[i + 1])
}

/// A year as chrono writes it: four digits, or (past year 9999) `+` and at
/// least five digits.
pub open spec fn is_year_text(y: Seq<char>) -> bool {
    ||| y.len() == 4 && all_digits(y)
    ||| y.len() >= 6 && y[0] == '+' && all_digits(y.drop_first())
}

/// `-MM-DD`, the separator `sep`, then `HH:MM:SS`: what follows the year.
pub open spec fn is_date_time_after_year(t: Seq<char>, sep: char) -> bool {
    &&& t.len() == 15
    &&& t[0] == '-'
    &&& two_digits(t, 1)
    &&& t[3] == '-'
    &&& two_digits(t, 4)
    &&& t[6] == sep
    &&& two_digits(t, 7)
    &&& t[9] == ':'
    &&& two_digits(t, 10)
    &&& t[12] == ':'
    &&& two_digits(t, 13)
}

/// `YYYY-MM-DD HH:MM:SS` (the year as `is_year_text` allows).
pub open spec fn is_clock_text(s: Seq<char>) -> bool {
    &&& s.len() >= 19
    &&& is_year_text(s.take(s.len() - 15))
    &&& is_date_time_after_year(s.skip(s.len() - 15), ' ')
}

/// No fraction, or `.` and its digits.
pub open spec fn is_fraction(f: Seq<char>) -> bool {
    f.len() == 0 || (f[0] == '.' && all_digits(f.drop_first()))
}

/// RFC 3339 in UTC with a fraction of `k` characters (the dot included):
/// `YYYY-MM-DDTHH:MM:SS`, the fraction, then `+00:00`.
pub open spec fn is_rfc3339_utc_with_fraction(s: Seq<char>, k: int) -> bool {
    let n = s.len() - 21 - k;
    &&& n >= 4
    &&& is_year_text(s.take(n))
    &&& is_date_time_after_year(s.subrange(n, n + 15), 'T')
    &&& is_fraction(s.subrange(n + 15, n + 15 + k))
    &&& s.skip(n + 15 + k) == "+00:00"@
}

/// RFC 3339 in UTC as chrono's `to_rfc3339` writes it: no fraction of a
/// second, or 3, 6 or 9 fraction digits.
pub open spec fn is_rfc3339_utc_text(s: Seq<char>) -> bool {
    ||| is_rfc3339_utc_with_fraction(s, 0)
    ||| is_rfc3339_utc_with_fraction(s, 4)
    ||| is_rfc3339_utc_with_fraction(s, 7)
    ||| is_rfc3339_utc_with_fraction(s, 10)
}

/// Seconds since the Unix epoch, now: `chrono::Utc::now().timestamp()`.
/// The value is the time of the call; `Utc::now` measures it from the epoch
/// (and panics when the system clock reads earlier), so it is never negative.
#[verifier::external_body]
pub(crate) fn current_unix_timestamp() -> (r: i64)
    ensures
        r >= 0,
{
    chrono::Utc::now().timestamp()
}

/// The current time as RFC 3339 text: `chrono::Utc::now().to_rfc3339()`.
/// Which time it shows depends on the call; its shape is fixed: UTC date and
/// time, a fraction of 0, 3, 6 or 9 digits, and the offset `+00:00`.
#[verifier::external_body]
pub(crate) fn current_rfc3339() -> (r: String)
    ensures
        is_rfc3339_utc_text(r@),
{
    chrono::Utc::now().to_rfc3339()
}

/// The current time as `YYYY-MM-DD HH:MM:SS` (UTC):
/// `chrono::Utc::now().format("%Y-%m-%d %H:%M:%S").to_string()`.
/// Which time it shows depends on the call; its shape is fixed.
#[verifier::external_body]
pub(crate) fn current_clock_text() -> (r: String)
    ensures
        is_clock_text(r@),
{
    chrono::Utc::now().format("%Y-%m-%d %H:%M:%S").to_string()
}

} // verus!
