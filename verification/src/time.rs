//! UTC calendar arithmetic for timestamps written in ISO 8601 form.
use vstd::prelude::*;
use crate::text::{decimal_padded, push_char, push_decimal_padded};

verus! {

/// A Gregorian leap year.
pub open spec fn is_leap_year(y: int) -> bool {
    y % 4 == 0 && (y % 100 != 0 || y % 400 == 0)
}

/// The number of days in year `y`.
pub open spec fn year_length(y: int) -> int {
    if is_leap_year(y) { 366 } else { 365 }
}

/// The number of days in month `m` (1 to 12) of year `y`.
pub open spec fn month_length(y: int, m: int) -> int {
    if m == 2 {
        if is_leap_year(y) { 29 } else { 28 }
    } else if m == 4 || m == 6 || m == 9 || m == 11 {
        30
    } else {
        31
    }
}

/// Days from 1970-01-01 to the first day of year `y` (for `y` from 1970 on).
pub open spec fn days_before_year(y: int) -> int
    decreases y - 1970,
{
    if y <= 1970 {
        0
    } else {
        days_before_year(y - 1) + year_length(y - 1)
    }
}

/// Days from the first of January of year `y` to the first day of month `m`.
pub open spec fn days_before_month(y: int, m: int) -> int
    decreases m,
{
    if m <= 1 {
        0
    } else {
        days_before_month(y, m - 1) + month_length(y, m - 1)
    }
}

/// `(y, m, d)` is a calendar date from 1970 on.
pub open spec fn valid_date(y: int, m: int, d: int) -> bool {
    y >= 1970 && 1 <= m <= 12 && 1 <= d <= month_length(y, m)
}

/// The number of days from 1970-01-01 to the date `(y, m, d)`.
pub open spec fn days_since_epoch(y: int, m: int, d: int) -> int {
    days_before_year(y) + days_before_month(y, m) + d - 1
}

/// The text `YYYY-MM-DDTHH:MM:SSZ` for a date and a time of day in seconds.
pub open spec fn iso8601_text(y: nat, m: nat, d: nat, secs_of_day: nat) -> Seq<char> {
    decimal_padded(y, 4) + seq!['-'] + decimal_padded(m, 2) + seq!['-'] + decimal_padded(d, 2)
        + seq!['T'] + decimal_padded(secs_of_day / 3600, 2) + seq![':'] + decimal_padded(
        (secs_of_day % 3600) / 60,
        2,
    ) + seq![':'] + decimal_padded(secs_of_day % 60, 2) + seq!['Z']
}

proof fn lemma_year_length_sum(y: int)
    ensures
        days_before_month(y, 13) == year_length(y),
{
    reveal_with_fuel(days_before_month, 13);
}

proof fn lemma_days_before_year_grows(y: int)
    requires
        y >= 1970,
    ensures
        days_before_year(y) >= 365 * (y - 1970),
    decreases y - 1970,
{
    if y > 1970 {
        lemma_days_before_year_grows(y - 1);
    }
}

/// The calendar date of the day `days` after 1970-01-01.
pub fn civil_from_days(days: u64) -> (ymd: (u64, u64, u64))
    requires
        days <= 0xffff_ffff_ffff,
    ensures
        valid_date(ymd.0 as int, ymd.1 as int, ymd.2 as int),
        days_since_epoch(ymd.0 as int, ymd.1 as int, ymd.2 as int) == days as int,
{
    let mut year: u64 = 1970;
    let mut remaining: u64 = days;
    loop
        invariant
            days <= 0xffff_ffff_ffff,
            year >= 1970,
            days_before_year(year as int) + remaining == days,
        ensures
            year >= 1970,
            days_before_year(year as int) + remaining == days,
            remaining < year_length(year as int),
        decreases remaining,
    {
        let leap = year % 4 == 0 && (year % 100 != 0 || year % 400 == 0);
        let days_in_year: u64 = if leap { 366 } else { 365 };
        if remaining < days_in_year {
            break;
        }
        proof {
            lemma_days_before_year_grows(year as int);
        }
        remaining = remaining - days_in_year;
        year = year + 1;
    }
    let leap = year % 4 == 0 && (year % 100 != 0 || year % 400 == 0);
    let mut month: u64 = 1;
    proof {
        lemma_year_length_sum(year as int);
    }
    loop
        invariant
            year >= 1970,
            1 <= month <= 12,
            leap == is_leap_year(year as int),
            days_before_year(year as int) + days_before_month(year as int, month as int)
                + remaining == days,
            days_before_month(year as int, month as int) + remaining < year_length(year as int),
            days_before_month(year as int, 13) == year_length(year as int),
        ensures
            1 <= month <= 12,
            days_before_year(year as int) + days_before_month(year as int, month as int)
                + remaining == days,
            remaining < month_length(year as int, month as int),
        decreases 13 - month,
    {
        let dim: u64 = if month == 2 {
            if leap { 29 } else { 28 }
        } else if month == 4 || month == 6 || month == 9 || month == 11 {
            30
        } else {
            31
        };
        if remaining < dim {
            break;
        }
        remaining = remaining - dim;
        if month == 12 {
            assert(false);
        }
        month = month + 1;
    }
    (year, month, remaining + 1)
}

/// Formats a Unix timestamp (seconds since 1970-01-01T00:00:00Z) as
/// `YYYY-MM-DDTHH:MM:SSZ` in UTC.
pub fn iso8601_from_unix_seconds(secs: u64) -> (s: String)
    ensures
        exists|y: nat, m: nat, d: nat|
            valid_date(y as int, m as int, d as int) && days_since_epoch(
                y as int,
                m as int,
                d as int,
            ) == secs / 86400 && s@ == iso8601_text(y, m, d, (secs % 86400) as nat),
{
    let days = secs / 86400;
    let secs_today = secs % 86400;
    let (year, month, day) = civil_from_days(days);
    let mut s = String::new();
    push_decimal_padded(&mut s, year, 4);
    push_char(&mut s, '-');
    push_decimal_padded(&mut s, month, 2);
    push_char(&mut s, '-');
    push_decimal_padded(&mut s, day, 2);
    push_char(&mut s, 'T');
    push_decimal_padded(&mut s, secs_today / 3600, 2);
    push_char(&mut s, ':');
    push_decimal_padded(&mut s, (secs_today % 3600) / 60, 2);
    push_char(&mut s, ':');
    push_decimal_padded(&mut s, secs_today % 60, 2);
    push_char(&mut s, 'Z');
    assert(s@ =~= iso8601_text(year as nat, month as nat, day as nat, secs_today as nat));
    s
}

proof fn lemma_month_before(y: int, a: int, b: int)
    requires
        1 <= a < b <= 13,
    ensures
        days_before_month(y, a) + month_length(y, a) <= days_before_month(y, b),
    decreases b - a,
{
    if b > a + 1 {
        lemma_month_before(y, a, b - 1);
    }
}

proof fn lemma_year_before(a: int, b: int)
    requires
        1970 <= a < b,
    ensures
        days_before_year(a) + year_length(a) <= days_before_year(b),
    decreases b - a,
{
    if b > a + 1 {
        lemma_year_before(a, b - 1);
    }
}

proof fn lemma_month_days_nonneg(y: int, m: int)
    ensures
        days_before_month(y, m) >= 0,
    decreases m,
{
    if m > 1 {
        lemma_month_days_nonneg(y, m - 1);
    }
}

proof fn lemma_offset_in_year(y: int, m: int, d: int)
    requires
        valid_date(y, m, d),
    ensures
        days_before_month(y, m) + d - 1 < year_length(y),
{
    lemma_year_length_sum(y);
    if m < 12 {
        lemma_month_before(y, m, 13);
        lemma_month_before(y, 12, 13);
    }
}

/// Each number of days since the epoch is the count of one date only: two valid
/// dates with the same count are the same date.
pub proof fn lemma_date_unique(y1: int, m1: int, d1: int, y2: int, m2: int, d2: int)
    requires
        valid_date(y1, m1, d1),
        valid_date(y2, m2, d2),
        days_since_epoch(y1, m1, d1) == days_since_epoch(y2, m2, d2),
    ensures
        y1 == y2 && m1 == m2 && d1 == d2,
{
    lemma_offset_in_year(y1, m1, d1);
    lemma_offset_in_year(y2, m2, d2);
    lemma_month_days_nonneg(y1, m1);
    lemma_month_days_nonneg(y2, m2);
    if y1 < y2 {
        lemma_year_before(y1, y2);
    } else if y2 < y1 {
        lemma_year_before(y2, y1);
    } else if m1 < m2 {
        lemma_month_before(y1, m1, m2);
    } else if m2 < m1 {
        lemma_month_before(y1, m2, m1);
    }
}

}
