//! The calendar model: proleptic-Gregorian dates with a fixed UTC offset,
//! day indices, and truncated whole-day differences between timestamps.

use vstd::arithmetic::div_mod::{
    lemma_div_is_ordered, lemma_div_is_ordered_by_denominator, lemma_fundamental_div_mod_converse,
};
use vstd::prelude::*;

verus! {

/// An instant in the proleptic Gregorian calendar, tagged with a fixed UTC
/// offset. The offset is stored once, in seconds east of UTC, and is never
/// re-derived from timezone rules, so all arithmetic on one value is
/// consistent. Supported years run from 1 through 9999.
#[derive(Clone, Copy, PartialEq, Eq, Structural, Debug)]
pub struct Timestamp {
    pub year: i32,
    pub month: u8,
    pub day: u8,
    pub hour: u8,
    pub minute: u8,
    pub second: u8,
    /// Seconds east of UTC, strictly between -86400 and 86400.
    pub offset_seconds: i32,
}

/// A leap year of the proleptic Gregorian calendar.
pub open spec fn is_leap_year(y: int) -> bool {
    y % 4 == 0 && (y % 100 != 0 || y % 400 == 0)
}

/// The number of days in month `m` (1-based) of year `y`.
pub open spec fn days_in_month(y: int, m: int) -> int {
    if m == 2 {
        if is_leap_year(y) {
            29
        } else {
            28
        }
    } else if m == 4 || m == 6 || m == 9 || m == 11 {
        30
    } else {
        31
    }
}

/// The number of days of year `y` that precede the first day of month `m`.
pub open spec fn days_before_month(y: int, m: int) -> int
    decreases m,
{
    if m <= 1 {
        0
    } else {
        days_before_month(y, m - 1) + days_in_month(y, m - 1)
    }
}

/// The number of leap years `x` with `1 <= x <= y`.
pub open spec fn leap_years_through(y: int) -> int {
    y / 4 - y / 100 + y / 400
}

/// The index of a calendar date, counted in days from day 0 = January 1 of
/// year 1.
pub open spec fn day_index(y: int, m: int, d: int) -> int {
    365 * (y - 1) + leap_years_through(y - 1) + days_before_month(y, m) + (d - 1)
}

/// Valid field values for a `Timestamp`.
pub open spec fn fields_valid(
    y: int,
    m: int,
    d: int,
    h: int,
    mi: int,
    s: int,
    off: int,
) -> bool {
    &&& 1 <= y <= 9999
    &&& 1 <= m <= 12
    &&& 1 <= d <= days_in_month(y, m)
    &&& 0 <= h < 24
    &&& 0 <= mi < 60
    &&& 0 <= s < 60
    &&& -86400 < off < 86400
}

impl Timestamp {
    /// Every field lies in its calendar range.
    pub open spec fn wf(self) -> bool {
        fields_valid(
            self.year as int,
            self.month as int,
            self.day as int,
            self.hour as int,
            self.minute as int,
            self.second as int,
            self.offset_seconds as int,
        )
    }

    /// The day index of this timestamp's calendar date.
    pub open spec fn day_index(self) -> int {
        day_index(self.year as int, self.month as int, self.day as int)
    }

    /// Seconds elapsed since local midnight.
    pub open spec fn second_of_day(self) -> int {
        self.hour * 3600 + self.minute * 60 + self.second
    }

    /// Seconds since the local midnight of day 0, i.e. the timestamp on a
    /// linear local-time axis.
    pub open spec fn local_seconds(self) -> int {
        self.day_index() * 86400 + self.second_of_day()
    }

    /// The instant the timestamp denotes, in seconds on a common (UTC) axis:
    /// two timestamps with different offsets compare by the instant they name.
    pub open spec fn instant_seconds(self) -> int {
        self.local_seconds() - self.offset_seconds
    }

    /// Builds a validated timestamp. Returns `Some` exactly when every field
    /// lies in its calendar range (the day must exist in the given month and
    /// year), and the returned value carries the fields unchanged.
    pub fn new(
        year: i32,
        month: u8,
        day: u8,
        hour: u8,
        minute: u8,
        second: u8,
        offset_seconds: i32,
    ) -> (r: Option<Timestamp>)
        ensures
            r is Some <==> fields_valid(
                year as int,
                month as int,
                day as int,
                hour as int,
                minute as int,
                second as int,
                offset_seconds as int,
            ),
            r matches Some(t) ==> t == (Timestamp {
                year,
                month,
                day,
                hour,
                minute,
                second,
                offset_seconds,
            }) && t.wf(),
    {
        if 1 <= year && year <= 9999 && 1 <= month && month <= 12 && 1 <= day && hour < 24
            && minute < 60 && second < 60 && -86400 < offset_seconds && offset_seconds < 86400
            && day <= month_length(year, month) {
            Some(
                Timestamp {
                    year,
                    month,
                    day,
                    hour,
                    minute,
                    second,
                    offset_seconds,
                },
            )
        } else {
            None
        }
    }
}

/// Division that truncates toward zero, as whole-day differences do: partial
/// days are dropped toward the earlier instant.
pub open spec fn div_toward_zero(a: int, b: int) -> int {
    if a >= 0 {
        a / b
    } else {
        -((-a) / b)
    }
}

/// The whole-day difference from `a` to `b`: full days in the elapsed time,
/// truncating a partial day, negative when `b` lies before `a`.
pub open spec fn whole_days_between(a: Timestamp, b: Timestamp) -> int {
    div_toward_zero(b.instant_seconds() - a.instant_seconds(), 86400)
}

/// Days preceding a month accumulate one month length per step.
pub proof fn lemma_days_before_month_step(y: int, m: int)
    requires
        1 <= m,
    ensures
        days_before_month(y, m + 1) == days_before_month(y, m) + days_in_month(y, m),
{
}

/// Bounds on the days that precede a month: at most 31 per elapsed month.
pub proof fn lemma_days_before_month_bounds(y: int, m: int)
    requires
        1 <= m <= 13,
    ensures
        0 <= days_before_month(y, m) <= 31 * (m - 1),
    decreases m,
{
    if m > 1 {
        lemma_days_before_month_bounds(y, m - 1);
    }
}

/// The days that precede a month grow with the month.
pub proof fn lemma_days_before_month_mono(y: int, m1: int, m2: int)
    requires
        1 <= m1 <= m2,
    ensures
        days_before_month(y, m1) <= days_before_month(y, m2),
    decreases m2,
{
    if m1 < m2 {
        lemma_days_before_month_mono(y, m1, m2 - 1);
    }
}

/// The day index of any valid date is a small non-negative number.
pub proof fn lemma_day_index_bounds(y: int, m: int, d: int)
    requires
        1 <= y <= 9999,
        1 <= m <= 12,
        1 <= d <= 31,
    ensures
        0 <= day_index(y, m, d) < 3_652_500,
{
    lemma_days_before_month_bounds(y, m);
    lemma_div_is_ordered(y - 1, 9998, 4);
    lemma_div_is_ordered(y - 1, 9998, 400);
    lemma_div_is_ordered(0, y - 1, 4);
    lemma_div_is_ordered(0, y - 1, 400);
    lemma_div_is_ordered_by_denominator(y - 1, 4, 100);
}

/// Whether year `y` is a leap year.
pub fn leap_year(y: i32) -> (r: bool)
    requires
        1 <= y,
    ensures
        r == is_leap_year(y as int),
{
    let yu: u32 = y as u32;
    yu % 4 == 0 && (yu % 100 != 0 || yu % 400 == 0)
}

/// The number of days in month `m` of year `y`.
pub fn month_length(y: i32, m: u8) -> (r: u8)
    requires
        1 <= y,
        1 <= m <= 12,
    ensures
        r as int == days_in_month(y as int, m as int),
{
    if m == 2 {
        if leap_year(y) {
            29
        } else {
            28
        }
    } else if m == 4 || m == 6 || m == 9 || m == 11 {
        30
    } else {
        31
    }
}

/// The number of days of year `y` that precede the first day of month `m`.
pub fn days_preceding_month(y: i32, m: u8) -> (r: u32)
    requires
        1 <= y,
        1 <= m <= 12,
    ensures
        r as int == days_before_month(y as int, m as int),
        r <= 31 * (m - 1),
{
    let mut acc: u32 = 0;
    let mut mm: u8 = 1;
    while mm < m
        invariant
            1 <= y,
            1 <= mm <= m,
            m <= 12,
            acc as int == days_before_month(y as int, mm as int),
            acc <= 31 * (mm - 1),
        decreases m - mm,
    {
        acc = acc + month_length(y, mm) as u32;
        mm = mm + 1;
    }
    acc
}

/// The day index of a valid calendar date, counted from day 0 = January 1 of
/// year 1.
pub fn day_index_of(y: i32, m: u8, d: u8) -> (r: u32)
    requires
        1 <= y <= 9999,
        1 <= m <= 12,
        1 <= d <= days_in_month(y as int, m as int),
    ensures
        r as int == day_index(y as int, m as int, d as int),
        r < 3_652_500,
{
    proof {
        lemma_day_index_bounds(y as int, m as int, d as int);
        lemma_div_is_ordered((y - 1) as int, 9998, 4);
        lemma_div_is_ordered_by_denominator((y - 1) as int, 4, 100);
        lemma_div_is_ordered(0, (y - 1) as int, 400);
        lemma_div_is_ordered((y - 1) as int, 9998, 400);
    }
    let yy: u32 = (y - 1) as u32;
    let year_days: u32 = 365 * yy + yy / 4 - yy / 100 + yy / 400;
    year_days + days_preceding_month(y, m) + (d as u32 - 1)
}

/// The instant a timestamp denotes, in seconds on a common (UTC) axis.
pub fn instant_seconds_of(t: &Timestamp) -> (r: i64)
    requires
        t.wf(),
    ensures
        r == t.instant_seconds(),
        -86400 < r < 320_000_000_000,
{
    let dn = day_index_of(t.year, t.month, t.day);
    let sod: u32 = t.hour as u32 * 3600 + t.minute as u32 * 60 + t.second as u32;
    (dn as i64) * 86400 + (sod as i64) - (t.offset_seconds as i64)
}

/// The whole-day difference from `a` to `b`, truncating any partial day.
pub fn whole_days(a: &Timestamp, b: &Timestamp) -> (r: i64)
    requires
        a.wf(),
        b.wf(),
    ensures
        r == whole_days_between(*a, *b),
{
    let sa = instant_seconds_of(a);
    let sb = instant_seconds_of(b);
    if sb >= sa {
        let diff: u64 = (sb - sa) as u64;
        proof {
            lemma_div_is_ordered(diff as int, 321_000_000_000, 86400);
        }
        (diff / 86400) as i64
    } else {
        let diff: u64 = (sa - sb) as u64;
        proof {
            lemma_div_is_ordered(diff as int, 321_000_000_000, 86400);
        }
        -((diff / 86400) as i64)
    }
}

/// From a midnight timestamp to any later-or-equal date with the same offset,
/// the whole-day difference counts exactly the calendar days between the two
/// dates.
pub proof fn lemma_whole_days_from_midnight(a: Timestamp, b: Timestamp)
    requires
        a.wf(),
        b.wf(),
        a.offset_seconds == b.offset_seconds,
        a.second_of_day() == 0,
        a.day_index() <= b.day_index(),
    ensures
        whole_days_between(a, b) == b.day_index() - a.day_index(),
{
    let days = b.day_index() - a.day_index();
    let diff = b.instant_seconds() - a.instant_seconds();
    assert(diff == days * 86400 + b.second_of_day());
    lemma_fundamental_div_mod_converse(diff, 86400, days, b.second_of_day());
}

/// From any timestamp to a midnight timestamp on a later-or-equal date with
/// the same offset, the whole-day difference counts the calendar days between
/// the two dates, less one when a partial day at the start is truncated away.
pub proof fn lemma_whole_days_to_midnight(a: Timestamp, b: Timestamp)
    requires
        a.wf(),
        b.wf(),
        a.offset_seconds == b.offset_seconds,
        b.second_of_day() == 0,
        a.day_index() <= b.day_index(),
    ensures
        whole_days_between(a, b) == if a.second_of_day() == 0 {
            b.day_index() - a.day_index()
        } else if a.day_index() == b.day_index() {
            0
        } else {
            b.day_index() - a.day_index() - 1
        },
{
    let days = b.day_index() - a.day_index();
    let sod = a.second_of_day();
    let diff = b.instant_seconds() - a.instant_seconds();
    assert(diff == days * 86400 - sod);
    if sod == 0 {
        lemma_fundamental_div_mod_converse(diff, 86400, days, 0);
    } else if days == 0 {
        assert(diff == -sod);
        lemma_fundamental_div_mod_converse(sod, 86400, 0, sod);
    } else {
        assert(diff == (days - 1) * 86400 + (86400 - sod));
        lemma_fundamental_div_mod_converse(diff, 86400, days - 1, 86400 - sod);
    }
}

} // verus!
