//! The proleptic Gregorian calendar and RFC 3339 UTC timestamps of Unix times.
use vstd::prelude::*;

use crate::text::{signed_zero_padded, zero_padded};

verus! {

/// Gregorian leap-year rule.
pub open spec fn is_leap_year(y: int) -> bool {
    (y % 4 == 0 && y % 100 != 0) || y % 400 == 0
}

/// Number of days in year `y`.
pub open spec fn year_len(y: int) -> int {
    if is_leap_year(y) {
        366
    } else {
        365
    }
}

/// Number of days in month `m` (`0` = January) of a leap or common year.
pub open spec fn month_len(m: int, leap: bool) -> int {
    if m == 1 {
        if leap {
            29
        } else {
            28
        }
    } else if m == 3 || m == 5 || m == 8 || m == 10 {
        30
    } else {
        31
    }
}

/// The year holding day `days` counted from January 1 of `year`, and the day's index
/// within that year.
pub open spec fn walk_years(year: int, days: int) -> (int, int)
    decreases (if days < 0 {
        1int
    } else {
        0int
    }), (if days < 0 {
        -days
    } else {
        days
    }),
{
    if days < 0 {
        walk_years(year - 1, days + year_len(year - 1))
    } else if days < year_len(year) {
        (year, days)
    } else {
        walk_years(year + 1, days - year_len(year))
    }
}

/// The month (`0` = January) holding day `days` counted from the start of month `month`
/// of a leap or common year, and the day's index within that month.
pub open spec fn walk_months(month: int, days: int, leap: bool) -> (int, int)
    decreases 12 - month,
{
    if month >= 11 || days < month_len(month, leap) {
        (month, days)
    } else {
        walk_months(month + 1, days - month_len(month, leap), leap)
    }
}

/// Year, month (`1..=12`) and day of month (`1..=31`) of the day `days` after
/// 1970-01-01.
pub open spec fn civil_date(days: int) -> (int, int, int) {
    let (y, r) = walk_years(1970, days);
    let (m, d) = walk_months(0, r, is_leap_year(y));
    (y, m + 1, d + 1)
}

/// Leap days in the years before year `y` (counted back to the proleptic origin).
pub open spec fn leaps_before(y: int) -> int {
    (y - 1) / 4 - (y - 1) / 100 + (y - 1) / 400
}

/// Days from 1970-01-01 to January 1 of year `y` (negative before 1970).
pub open spec fn days_before_year(y: int) -> int {
    365 * (y - 1970) + leaps_before(y) - leaps_before(1970)
}

proof fn lemma_quotient_step_4(y: int)
    ensures
        y / 4 - (y - 1) / 4 == (if y % 4 == 0 {
            1int
        } else {
            0int
        }),
{
    vstd::arithmetic::div_mod::lemma_fundamental_div_mod(y, 4);
    vstd::arithmetic::div_mod::lemma_fundamental_div_mod(y - 1, 4);
}

proof fn lemma_quotient_step_100(y: int)
    ensures
        y / 100 - (y - 1) / 100 == (if y % 100 == 0 {
            1int
        } else {
            0int
        }),
{
    vstd::arithmetic::div_mod::lemma_fundamental_div_mod(y, 100);
    vstd::arithmetic::div_mod::lemma_fundamental_div_mod(y - 1, 100);
}

proof fn lemma_quotient_step_400(y: int)
    ensures
        y / 400 - (y - 1) / 400 == (if y % 400 == 0 {
            1int
        } else {
            0int
        }),
{
    vstd::arithmetic::div_mod::lemma_fundamental_div_mod(y, 400);
    vstd::arithmetic::div_mod::lemma_fundamental_div_mod(y - 1, 400);
}

/// Consecutive years start `year_len` days apart.
pub proof fn lemma_days_before_next_year(y: int)
    ensures
        days_before_year(y + 1) == days_before_year(y) + year_len(y),
{
    lemma_quotient_step_4(y);
    lemma_quotient_step_100(y);
    lemma_quotient_step_400(y);
}

proof fn lemma_quotient_shift_4(x: int)
    ensures
        (x + 400) / 4 == x / 4 + 100,
{
    vstd::arithmetic::div_mod::lemma_fundamental_div_mod(x, 4);
    vstd::arithmetic::div_mod::lemma_fundamental_div_mod(x + 400, 4);
}

proof fn lemma_quotient_shift_100(x: int)
    ensures
        (x + 400) / 100 == x / 100 + 4,
{
    vstd::arithmetic::div_mod::lemma_fundamental_div_mod(x, 100);
    vstd::arithmetic::div_mod::lemma_fundamental_div_mod(x + 400, 100);
}

proof fn lemma_quotient_shift_400(x: int)
    ensures
        (x + 400) / 400 == x / 400 + 1,
{
    vstd::arithmetic::div_mod::lemma_fundamental_div_mod(x, 400);
    vstd::arithmetic::div_mod::lemma_fundamental_div_mod(x + 400, 400);
}

/// The calendar repeats every 400 years, which hold 146097 days.
pub proof fn lemma_days_before_era(y: int)
    ensures
        days_before_year(y + 400) == days_before_year(y) + 146097,
{
    lemma_quotient_shift_4(y - 1);
    lemma_quotient_shift_100(y - 1);
    lemma_quotient_shift_400(y - 1);
}

/// January 1 of year `1970 + 400 * k` is `146097 * k` days after the epoch.
pub proof fn lemma_days_before_eras(k: int)
    ensures
        days_before_year(1970 + 400 * k) == 146097 * k,
    decreases (if k < 0 {
        -k
    } else {
        k
    }),
{
    if k > 0 {
        lemma_days_before_eras(k - 1);
        lemma_days_before_era(1970 + 400 * (k - 1));
    } else if k < 0 {
        lemma_days_before_eras(k + 1);
        lemma_days_before_era(1970 + 400 * k);
    }
}

/// Walking from year `year` by `days` days ends in the year `y` whose days span
/// `[days_before_year(y), days_before_year(y + 1))` holds the day reached.
pub proof fn lemma_walk_years_lands(year: int, days: int)
    ensures
        ({
            let (y, r) = walk_years(year, days);
            &&& r == days + days_before_year(year) - days_before_year(y)
            &&& 0 <= r < year_len(y)
        }),
    decreases (if days < 0 {
        1int
    } else {
        0int
    }), (if days < 0 {
        -days
    } else {
        days
    }),
{
    if days < 0 {
        lemma_days_before_next_year(year - 1);
        lemma_walk_years_lands(year - 1, days + year_len(year - 1));
    } else if days < year_len(year) {
    } else {
        lemma_days_before_next_year(year);
        lemma_walk_years_lands(year + 1, days - year_len(year));
    }
}

/// `days_before_year` is increasing.
pub proof fn lemma_days_before_year_increasing(a: int, b: int)
    requires
        a < b,
    ensures
        days_before_year(a) < days_before_year(b),
    decreases b - a,
{
    lemma_days_before_next_year(a);
    if a + 1 < b {
        lemma_days_before_year_increasing(a + 1, b);
    }
}

/// The year holding day `days` after the epoch is the one whose days span holds it.
pub proof fn lemma_walk_years_from_epoch(days: int, y: int)
    requires
        days_before_year(y) <= days < days_before_year(y) + year_len(y),
    ensures
        walk_years(1970, days) == (y, days - days_before_year(y)),
{
    lemma_walk_years_lands(1970, days);
    let (y2, r2) = walk_years(1970, days);
    lemma_days_before_next_year(y);
    lemma_days_before_next_year(y2);
    if y2 < y {
        if y2 + 1 < y {
            lemma_days_before_year_increasing(y2 + 1, y);
        }
    } else if y < y2 {
        if y + 1 < y2 {
            lemma_days_before_year_increasing(y + 1, y2);
        }
    }
}

/// The RFC 3339 UTC timestamp `YYYY-MM-DDTHH:MM:SSZ` of a Unix time in seconds.
pub open spec fn utc_timestamp(secs: int) -> Seq<char> {
    let days = secs / 86400;
    let sod = secs % 86400;
    let (y, m, d) = civil_date(days);
    signed_zero_padded(y, 4) + "-"@ + zero_padded(m as nat, 2) + "-"@ + zero_padded(d as nat, 2)
        + "T"@ + zero_padded((sod / 3600) as nat, 2) + ":"@ + zero_padded(
        ((sod % 3600) / 60) as nat,
        2,
    ) + ":"@ + zero_padded((sod % 60) as nat, 2) + "Z"@
}

} // verus!

verus! {

/// Seconds since the Unix epoch by the system clock (`SystemTime::now()` measured from
/// `UNIX_EPOCH`); a clock set before the epoch reads as `0`. Nothing is promised of the
/// value: it is whatever the clock says.
#[verifier::external_body]
pub(crate) fn unix_now() -> u64 {
    std::time::SystemTime::now().duration_since(std::time::UNIX_EPOCH).map(|d| d.as_secs()).unwrap_or(0)
}

} // verus!
