use vstd::prelude::*;
use chrono::Datelike;

verus! {

/// A calendar date in the proleptic Gregorian calendar, held as plain fields.
#[derive(Debug, Clone, Copy, PartialEq, Eq, Structural, Hash)]
pub struct Date {
    pub year: i32,
    pub month: u8,
    pub day: u8,
}

/// The day number of 1970-01-01 when January 1 of year 1 is day 1.
pub const UNIX_EPOCH_DAY_NUMBER: i64 = 719163;

/// The day number of 9999-12-31, the last date this library works with.
pub const MAX_DAY_NUMBER: i64 = 3652059;

pub open spec fn is_leap_year(y: int) -> bool {
    (y % 4 == 0 && y % 100 != 0) || y % 400 == 0
}

pub open spec fn spec_days_in_month(y: int, m: int) -> int {
    if m == 2 {
        if is_leap_year(y) {
            29
        } else {
            28
        }
    } else if m == 4 || m == 6 || m == 9 || m == 11 {
        30
    } else {
        31
    }
}

/// Days in the months of year `y` that come before month `m`.
pub open spec fn spec_days_before_month(y: int, m: int) -> int {
    let plain: int = if m == 1 {
        0
    } else if m == 2 {
        31
    } else if m == 3 {
        59
    } else if m == 4 {
        90
    } else if m == 5 {
        120
    } else if m == 6 {
        151
    } else if m == 7 {
        181
    } else if m == 8 {
        212
    } else if m == 9 {
        243
    } else if m == 10 {
        273
    } else if m == 11 {
        304
    } else {
        334
    };
    plain + if m > 2 && is_leap_year(y) {
        1int
    } else {
        0int
    }
}

/// The number of the day `(y, m, d)` in the proleptic Gregorian calendar,
/// counting January 1 of year 1 as day 1: complete years before `y`
/// (365 per year plus the Gregorian leap days), then complete months, then
/// the day of the month.
pub open spec fn spec_day_number(y: int, m: int, d: int) -> int {
    365 * (y - 1) + (y - 1) / 4 - (y - 1) / 100 + (y - 1) / 400 + spec_days_before_month(y, m) + d
}

impl Date {
    pub open spec fn valid(self) -> bool {
        &&& 1 <= self.year <= 9999
        &&& 1 <= self.month <= 12
        &&& 1 <= self.day <= spec_days_in_month(self.year as int, self.month as int)
    }

    /// The date's day number (see `spec_day_number`).
    pub open spec fn num(self) -> int {
        spec_day_number(self.year as int, self.month as int, self.day as int)
    }

    /// Lexicographic order on (year, month, day).
    pub open spec fn spec_le(self, o: Date) -> bool {
        ||| self.year < o.year
        ||| (self.year == o.year && self.month < o.month)
        ||| (self.year == o.year && self.month == o.month && self.day <= o.day)
    }
}

pub fn leap_year(y: i32) -> (b: bool)
    requires
        y >= 1,
    ensures
        b == is_leap_year(y as int),
{
    (y % 4 == 0 && y % 100 != 0) || y % 400 == 0
}

pub fn days_in_month(y: i32, m: u8) -> (n: u8)
    requires
        y >= 1,
    ensures
        n as int == spec_days_in_month(y as int, m as int),
{
    if m == 2 {
        if leap_year(y) {
            29
        } else {
            28
        }
    } else if m == 4 || m == 6 || m == 9 || m == 11 {
        30
    } else {
        31
    }
}

/// The day number of a valid date, computed by the closed Gregorian formula.
pub fn day_number(d: &Date) -> (n: i64)
    requires
        d.valid(),
    ensures
        n as int == d.num(),
        1 <= n <= MAX_DAY_NUMBER,
{
    let y: i64 = (d.year - 1) as i64;
    let before_years: i64 = 365 * y + y / 4 - y / 100 + y / 400;
    let plain: i64 = if d.month == 1 {
        0
    } else if d.month == 2 {
        31
    } else if d.month == 3 {
        59
    } else if d.month == 4 {
        90
    } else if d.month == 5 {
        120
    } else if d.month == 6 {
        151
    } else if d.month == 7 {
        181
    } else if d.month == 8 {
        212
    } else if d.month == 9 {
        243
    } else if d.month == 10 {
        273
    } else if d.month == 11 {
        304
    } else {
        334
    };
    let before_months: i64 = plain + if d.month > 2 && leap_year(d.year) {
        1
    } else {
        0
    };
    before_years + before_months + d.day as i64
}

/// Relies on chrono's `NaiveDate::from_num_days_from_ce_opt`: it returns the
/// date whose day count in the proleptic Gregorian calendar is `n`, counting
/// January 1 of year 1 as day 1 — the same count that `spec_day_number`
/// states — and returns `Some` for every `n` admitted here.
#[verifier::external_body]
pub fn date_of_day_number(n: i64) -> (d: Date)
    requires
        1 <= n <= MAX_DAY_NUMBER,
    ensures
        d.valid(),
        d.num() == n,
{
    let nd = chrono::NaiveDate::from_num_days_from_ce_opt(n as i32).unwrap();
    Date { year: nd.year(), month: nd.month() as u8, day: nd.day() as u8 }
}

pub fn date_le(a: &Date, b: &Date) -> (r: bool)
    ensures
        r == a.spec_le(*b),
{
    a.year < b.year || (a.year == b.year && (a.month < b.month || (a.month == b.month
        && a.day <= b.day)))
}

} // verus!
