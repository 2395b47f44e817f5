//! Calendar dates as (year, month, day), with the few operations of
//! `chrono::NaiveDate` that the services use.
use vstd::prelude::*;

use crate::decimal::padded_digits;

verus! {

/// Earliest year of `chrono::NaiveDate`.
pub open spec fn min_year() -> int {
    -262143
}

/// Latest year of `chrono::NaiveDate`.
pub open spec fn max_year() -> int {
    262142
}

/// Gregorian leap year (proleptic, with a year 0).
pub open spec fn is_leap_year(y: int) -> bool {
    y % 4 == 0 && (y % 100 != 0 || y % 400 == 0)
}

/// Number of days in a month of the Gregorian calendar.
pub open spec fn days_in_month(y: int, m: int) -> int {
    if m == 2 {
        if is_leap_year(y) {
            29
        } else {
            28
        }
    } else if m == 4 || m == 6 || m == 9 || m == 11 {
        30
    } else {
        31
    }
}

/// A calendar date.
#[derive(Clone, Copy, Debug, PartialEq, Eq, Structural)]
pub struct Ymd {
    pub year: i32,
    pub month: u32,
    pub day: u32,
}

/// A calendar date within `NaiveDate`'s range.
pub open spec fn valid_date(d: Ymd) -> bool {
    &&& min_year() <= d.year <= max_year()
    &&& 1 <= d.month <= 12
    &&& 1 <= d.day <= days_in_month(d.year as int, d.month as int)
}

/// The calendar day before `d`.
pub open spec fn day_before_spec(d: Ymd) -> Ymd {
    if d.day > 1 {
        Ymd { day: (d.day - 1) as u32, ..d }
    } else if d.month > 1 {
        Ymd { year: d.year, month: (d.month - 1) as u32, day: days_in_month(d.year as int, d.month - 1) as u32 }
    } else {
        Ymd { year: (d.year - 1) as i32, month: 12, day: 31 }
    }
}

/// `NaiveDate::pred_opt` on a date given as (year, month, day): the previous
/// day of the proleptic Gregorian calendar, which the crate gives for every
/// date after its first one.
#[verifier::external_body]
fn day_before(d: Ymd) -> (r: Ymd)
    requires
        valid_date(d),
        !(d.year == min_year() && d.month == 1 && d.day == 1),
    ensures
        r == day_before_spec(d),
{
    let date = chrono::NaiveDate::from_ymd_opt(d.year, d.month, d.day).unwrap();
    let p = date.pred_opt().unwrap();
    Ymd {
        year: chrono::Datelike::year(&p),
        month: chrono::Datelike::month(&p),
        day: chrono::Datelike::day(&p),
    }
}

/// First and last day of the month that contains `d`.
pub open spec fn month_period_spec(d: Ymd) -> (Ymd, Ymd) {
    (Ymd { day: 1, ..d }, Ymd { day: days_in_month(d.year as int, d.month as int) as u32, ..d })
}

/// The first and last day of the month containing `d`; the last day is the
/// day before the first day of the next month.
pub fn month_period_containing(d: Ymd) -> (r: (Ymd, Ymd))
    requires
        valid_date(d),
        d.year < max_year(),
    ensures
        r == month_period_spec(d),
{
    let start = Ymd { year: d.year, month: d.month, day: 1 };
    let next_month = if d.month == 12 {
        Ymd { year: d.year + 1, month: 1, day: 1 }
    } else {
        Ymd { year: d.year, month: d.month + 1, day: 1 }
    };
    let end = day_before(next_month);
    (start, end)
}


/// The year as `NaiveDate` writes it: four digits for 0 to 9999, else an
/// explicit sign and at least four digits (`{year:+05}`).
pub open spec fn iso_year_text(y: int) -> Seq<char> {
    if 0 <= y <= 9999 {
        padded_digits(y as nat, 4)
    } else if y < 0 {
        seq!['-'] + padded_digits((-y) as nat, 4)
    } else {
        seq!['+'] + padded_digits(y as nat, 4)
    }
}

/// What `NaiveDate`'s `Display` (its `Debug`) gives for a date: the year,
/// `-`, the two-digit month, `-`, the two-digit day.
pub open spec fn naive_date_text(d: Ymd) -> Seq<char> {
    iso_year_text(d.year as int) + "-"@ + padded_digits(d.month as nat, 2) + "-"@ + padded_digits(
        d.day as nat,
        2,
    )
}

/// `NaiveDate::to_string`: ISO 8601 `%Y-%m-%d`, the year signed outside 0
/// to 9999.
#[verifier::external_body]
pub fn date_to_string(d: Ymd) -> (r: String)
    requires
        valid_date(d),
    ensures
        r@ == naive_date_text(d),
{
    chrono::NaiveDate::from_ymd_opt(d.year, d.month, d.day).unwrap().to_string()
}

} // verus!
