//! Civil (proleptic Gregorian) calendar dates: validity, the next calendar
//! day, and the rendered date and timestamp forms.  Date construction and
//! day arithmetic are delegated to chrono behind one trusted wrapper; the
//! specifications here state exactly what that arithmetic does.

use vstd::prelude::*;

use chrono::Datelike;
use chrono::TimeZone;

use crate::numfmt::{dec_digits, fmt_pad2, fmt_year, year_digits, zero_pad};

verus! {

/// The lowest year chrono can represent.
pub const MIN_SUPPORTED_YEAR: i32 = -262143;

/// The highest year chrono can represent.
pub const MAX_SUPPORTED_YEAR: i32 = 262142;

/// The proleptic Gregorian leap-year rule.
pub open spec fn is_leap_year(y: int) -> bool {
    (y % 4 == 0 && y % 100 != 0) || y % 400 == 0
}

/// Days in a month of the proleptic Gregorian calendar.
pub open spec fn days_in_month(y: int, m: int) -> int {
    if m == 2 {
        if is_leap_year(y) {
            29
        } else {
            28
        }
    } else if m == 4 || m == 6 || m == 9 || m == 11 {
        30
    } else {
        31
    }
}

/// A valid civil date: month 1 through 12, day within the month.
pub open spec fn valid_civil_date(y: int, m: int, d: int) -> bool {
    1 <= m <= 12 && 1 <= d <= days_in_month(y, m)
}

/// A civil date that chrono can represent.
pub open spec fn chrono_date_valid(y: int, m: int, d: int) -> bool {
    valid_civil_date(y, m, d) && MIN_SUPPORTED_YEAR <= y <= MAX_SUPPORTED_YEAR
}

/// The day after a civil date, with rollover across month and year
/// boundaries.
pub open spec fn next_civil_day(y: int, m: int, d: int) -> (int, int, int) {
    if d < days_in_month(y, m) {
        (y, m, d + 1)
    } else if m < 12 {
        (y, m + 1, 1)
    } else {
        (y + 1, 1, 1)
    }
}

/// Strict lexicographic order on (year, month, day) triples.
pub open spec fn date_lt(a: (int, int, int), b: (int, int, int)) -> bool {
    a.0 < b.0 || (a.0 == b.0 && (a.1 < b.1 || (a.1 == b.1 && a.2 < b.2)))
}

/// The next calendar day really is the successor: it is itself a valid
/// civil date, it lies strictly after the given date, and no valid civil
/// date lies strictly between the two.
pub proof fn lemma_next_civil_day_is_successor(y: int, m: int, d: int)
    requires
        valid_civil_date(y, m, d),
    ensures
        ({
            let n = next_civil_day(y, m, d);
            &&& valid_civil_date(n.0, n.1, n.2)
            &&& date_lt((y, m, d), n)
            &&& forall|e: (int, int, int)|
                valid_civil_date(e.0, e.1, e.2) && date_lt((y, m, d), e) ==> !date_lt(
                    e,
                    #[trigger] next_civil_day(y, m, d),
                )
        }),
{
}

/// A date rendered as calendar text: the year form, then the zero-padded
/// two-digit month and day.
pub open spec fn date_digits(y: int, m: int, d: int) -> Seq<char> {
    year_digits(y) + zero_pad(dec_digits(m), 2) + zero_pad(dec_digits(d), 2)
}

/// Formats a date as calendar text.
pub fn fmt_date(y: i32, m: u32, d: u32) -> (r: String)
    ensures
        r@ == date_digits(y as int, m as int, d as int),
{
    let mut out = fmt_year(y);
    let month = fmt_pad2(m as u64);
    out.append(month.as_str());
    let day = fmt_pad2(d as u64);
    out.append(day.as_str());
    out
}

/// Relies on chrono: `Utc.with_ymd_and_hms(y, m, d, 0, 0, 0)` yields a
/// single result exactly when (y, m, d) is a valid proleptic-Gregorian date
/// within chrono's representable year range, and adding a one-day
/// `TimeDelta` with `checked_add_signed` then yields midnight of the next
/// civil day, failing only at chrono's maximum date.
#[verifier::external_body]
pub(crate) fn chrono_next_day(y: i32, m: u32, d: u32) -> (r: Option<(i32, u32, u32)>)
    ensures
        match r {
            Some(t) => {
                &&& chrono_date_valid(y as int, m as int, d as int)
                &&& !(y == MAX_SUPPORTED_YEAR && m == 12 && d == 31)
                &&& (t.0 as int, t.1 as int, t.2 as int) == next_civil_day(
                    y as int,
                    m as int,
                    d as int,
                )
            },
            None => !(chrono_date_valid(y as int, m as int, d as int) && !(y == MAX_SUPPORTED_YEAR
                && m == 12 && d == 31)),
        },
{
    let start = chrono::Utc.with_ymd_and_hms(y, m, d, 0, 0, 0).earliest()?;
    let end = start.checked_add_signed(chrono::TimeDelta::days(1))?;
    Some((end.year(), end.month(), end.day()))
}

} // verus!
