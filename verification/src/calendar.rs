//! Calendar dates and times of day as plain values, and the steps the date entry screen
//! takes on them, computed by `chrono`.
use vstd::prelude::*;

use chrono::{Datelike, Days, Months, NaiveDate, NaiveTime, TimeDelta, Timelike};

verus! {

/// The earliest year a `chrono` date can hold.
pub const MIN_DATE_YEAR: i32 = -262143;

/// The latest year a `chrono` date can hold.
pub const MAX_DATE_YEAR: i32 = 262142;

/// Number of seconds in a day.
pub const SECONDS_PER_DAY: u32 = 86400;

/// A calendar date of the proleptic Gregorian calendar.
#[derive(Clone, Copy, Debug, PartialEq, Eq, Structural)]
pub struct DateValue {
    pub year: i32,
    pub month: u32,
    pub day: u32,
}

/// Leap years: divisible by 4, and not by 100 unless by 400.
pub open spec fn is_leap_year(y: int) -> bool {
    y % 4 == 0 && (y % 100 != 0 || y % 400 == 0)
}

/// Number of days of month `m` (1 to 12) of year `y`.
pub open spec fn days_in_month(y: int, m: int) -> int {
    if m == 2 {
        if is_leap_year(y) {
            29
        } else {
            28
        }
    } else if m == 4 || m == 6 || m == 9 || m == 11 {
        30
    } else {
        31
    }
}

/// Whether `y`-`m`-`d` is a date that exists and that `chrono` can hold.
pub open spec fn valid_ymd(y: int, m: int, d: int) -> bool {
    &&& MIN_DATE_YEAR <= y <= MAX_DATE_YEAR
    &&& 1 <= m <= 12
    &&& 1 <= d <= days_in_month(y, m)
}

pub open spec fn valid_date(d: DateValue) -> bool {
    valid_ymd(d.year as int, d.month as int, d.day as int)
}

/// The date `delta` months from `d`, on the same day of the month or on the last day of a
/// shorter month; none when its year is out of range.
pub open spec fn month_shift(d: DateValue, delta: int) -> Option<DateValue> {
    let k = d.year * 12 + d.month - 1 + delta;
    let y = k / 12;
    let m = k % 12 + 1;
    let day = if d.day <= days_in_month(y, m) {
        d.day as int
    } else {
        days_in_month(y, m)
    };
    if MIN_DATE_YEAR <= y <= MAX_DATE_YEAR {
        Some(DateValue { year: y as i32, month: m as u32, day: day as u32 })
    } else {
        None
    }
}

/// The day after `d` (`forward`) or before it; none when its year is out of range.
pub open spec fn day_shift(d: DateValue, forward: bool) -> Option<DateValue> {
    let n = if forward {
        if d.day < days_in_month(d.year as int, d.month as int) {
            DateValue { year: d.year, month: d.month, day: (d.day + 1) as u32 }
        } else if d.month < 12 {
            DateValue { year: d.year, month: (d.month + 1) as u32, day: 1 }
        } else {
            DateValue { year: (d.year + 1) as i32, month: 1, day: 1 }
        }
    } else {
        if d.day > 1 {
            DateValue { year: d.year, month: d.month, day: (d.day - 1) as u32 }
        } else if d.month > 1 {
            DateValue {
                year: d.year,
                month: (d.month - 1) as u32,
                day: days_in_month(d.year as int, d.month - 1) as u32,
            }
        } else {
            DateValue { year: (d.year - 1) as i32, month: 12, day: 31 }
        }
    };
    if MIN_DATE_YEAR <= n.year <= MAX_DATE_YEAR {
        Some(n)
    } else {
        None
    }
}

/// The time of day `delta` seconds from `secs` seconds after midnight, wrapping around
/// midnight.
pub open spec fn time_shift(secs: int, delta: int) -> int {
    (secs + delta) % (SECONDS_PER_DAY as int)
}

/// Calls `chrono::NaiveDate::from_ymd_opt` and reads the date back with `Datelike`. The
/// crate documents `None` exactly for a day that does not exist, an invalid month or day, or
/// a year out of its range, and otherwise the date given.
#[verifier::external_body]
pub(crate) fn date_from_ymd(year: i32, month: u32, day: u32) -> (r: Option<DateValue>)
    ensures
        r is Some <==> valid_ymd(year as int, month as int, day as int),
        r matches Some(v) ==> v == (DateValue { year, month, day }),
{
    match NaiveDate::from_ymd_opt(year, month, day) {
        Some(date) => Some(DateValue { year: date.year(), month: date.month(), day: date.day() }),
        None => None,
    }
}

/// Calls `chrono::NaiveDate::checked_add_months` with one month. The crate documents the
/// same day of the next month, or the last day of that month when it is shorter, and `None`
/// when the result is out of range.
#[verifier::external_body]
fn date_add_month(d: DateValue) -> (r: Option<DateValue>)
    requires
        valid_date(d),
    ensures
        r == month_shift(d, 1),
{
    let date = NaiveDate::from_ymd_opt(d.year, d.month, d.day).unwrap();
    match date.checked_add_months(Months::new(1)) {
        Some(n) => Some(DateValue { year: n.year(), month: n.month(), day: n.day() }),
        None => None,
    }
}

/// Calls `chrono::NaiveDate::checked_sub_months` with one month. The crate documents the
/// same day of the month before, or the last day of that month when it is shorter, and
/// `None` when the result is out of range.
#[verifier::external_body]
fn date_sub_month(d: DateValue) -> (r: Option<DateValue>)
    requires
        valid_date(d),
    ensures
        r == month_shift(d, -1),
{
    let date = NaiveDate::from_ymd_opt(d.year, d.month, d.day).unwrap();
    match date.checked_sub_months(Months::new(1)) {
        Some(n) => Some(DateValue { year: n.year(), month: n.month(), day: n.day() }),
        None => None,
    }
}

/// Calls `chrono::NaiveDate::checked_add_days` with one day: the next calendar day, `None`
/// when it is out of range.
#[verifier::external_body]
fn date_add_day(d: DateValue) -> (r: Option<DateValue>)
    requires
        valid_date(d),
    ensures
        r == day_shift(d, true),
{
    let date = NaiveDate::from_ymd_opt(d.year, d.month, d.day).unwrap();
    match date.checked_add_days(Days::new(1)) {
        Some(n) => Some(DateValue { year: n.year(), month: n.month(), day: n.day() }),
        None => None,
    }
}

/// Calls `chrono::NaiveDate::checked_sub_days` with one day: the calendar day before,
/// `None` when it is out of range.
#[verifier::external_body]
fn date_sub_day(d: DateValue) -> (r: Option<DateValue>)
    requires
        valid_date(d),
    ensures
        r == day_shift(d, false),
{
    let date = NaiveDate::from_ymd_opt(d.year, d.month, d.day).unwrap();
    match date.checked_sub_days(Days::new(1)) {
        Some(n) => Some(DateValue { year: n.year(), month: n.month(), day: n.day() }),
        None => None,
    }
}

/// Adds `TimeDelta::seconds(delta)` to the `chrono::NaiveTime` that is `secs` seconds after
/// midnight (and no fraction of a second), and reads back the seconds after midnight. The
/// crate documents that this addition wraps around midnight; `TimeDelta::seconds` panics
/// beyond `i64::MAX / 1000` seconds, which `requires` rules out.
#[verifier::external_body]
fn time_add_seconds(secs: u32, delta: i64) -> (r: u32)
    requires
        secs < SECONDS_PER_DAY,
        -(i64::MAX / 1000) <= delta <= i64::MAX / 1000,
    ensures
        r == time_shift(secs as int, delta as int),
{
    let mut time = NaiveTime::from_num_seconds_from_midnight_opt(secs, 0).unwrap();
    time += TimeDelta::seconds(delta);
    time.num_seconds_from_midnight()
}

/// The date `d` moved by one month, or `d` itself when that date is out of range.
pub fn step_month(d: DateValue, forward: bool) -> (r: DateValue)
    requires
        valid_date(d),
    ensures
        r == (match month_shift(d, if forward { 1 } else { -1 }) {
            Some(n) => n,
            None => d,
        }),
        valid_date(r),
{
    let moved = if forward {
        date_add_month(d)
    } else {
        date_sub_month(d)
    };
    match moved {
        Some(n) => n,
        None => d,
    }
}

/// The date `d` moved by one day, or `d` itself when that date is out of range.
pub fn step_day(d: DateValue, forward: bool) -> (r: DateValue)
    requires
        valid_date(d),
    ensures
        r == (match day_shift(d, forward) {
            Some(n) => n,
            None => d,
        }),
        valid_date(r),
{
    let moved = if forward {
        date_add_day(d)
    } else {
        date_sub_day(d)
    };
    match moved {
        Some(n) => n,
        None => d,
    }
}

/// The time of day `delta` seconds from `secs`, wrapping around midnight.
pub fn step_time(secs: u32, delta: i64) -> (r: u32)
    requires
        secs < SECONDS_PER_DAY,
        -(SECONDS_PER_DAY as int) <= delta <= SECONDS_PER_DAY,
    ensures
        r == time_shift(secs as int, delta as int),
        r < SECONDS_PER_DAY,
{
    time_add_seconds(secs, delta)
}

/// A step of a time of day forward and the same step back return to it.
pub proof fn lemma_time_step_inverse(secs: int, delta: int)
    requires
        0 <= secs < SECONDS_PER_DAY,
    ensures
        time_shift(time_shift(secs, delta), -delta) == secs,
{
    let n = SECONDS_PER_DAY as int;
    vstd::arithmetic::div_mod::lemma_add_mod_noop_right(-delta, secs + delta, n);
    assert(-delta + (secs + delta) == secs);
    vstd::arithmetic::div_mod::lemma_small_mod(secs as nat, n as nat);
}

} // verus!
