//! The clock source: reads the current local time with its fixed UTC offset
//! and validates it into a library timestamp.

use chrono::{Datelike, Timelike};
use vstd::prelude::*;

use crate::date::Timestamp;

verus! {

/// Relies on chrono's `Local::now`, `DateTime::with_timezone` and the
/// `Datelike`/`Timelike` accessors: the local clock reading is frozen to its
/// fixed UTC offset and handed out as plain calendar fields. Nothing is
/// assumed of the instant itself; chrono documents that the month runs from
/// 1 to 12, the day from 1 to 31, the hour below 24, the minute and second
/// below 60, and that a `FixedOffset` is strictly within one day of UTC.
#[verifier::external_body]
fn clock_fields() -> (r: (i32, u8, u8, u8, u8, u8, i32))
    ensures
        1 <= r.1 <= 12,
        1 <= r.2 <= 31,
        r.3 < 24,
        r.4 < 60,
        r.5 < 60,
        -86400 < r.6 < 86400,
{
    let local = chrono::Local::now();
    let now = local.with_timezone(local.offset());
    (
        now.year(),
        now.month() as u8,
        now.day() as u8,
        now.hour() as u8,
        now.minute() as u8,
        now.second() as u8,
        now.offset().local_minus_utc(),
    )
}

/// Reads the current local time as a validated timestamp with a fixed UTC
/// offset. Returns `None` only when the clock reading lies outside the
/// library's calendar domain (a year before 1 or after 9999).
pub fn current_timestamp() -> (r: Option<Timestamp>)
    ensures
        r matches Some(t) ==> t.wf(),
{
    let (year, month, day, hour, minute, second, offset_seconds) = clock_fields();
    Timestamp::new(year, month, day, hour, minute, second, offset_seconds)
}

} // verus!
