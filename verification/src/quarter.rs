//! The quarter calculator: maps a timestamp to its position within the
//! calendar quarter that contains it.

use vstd::arithmetic::div_mod::lemma_div_is_ordered;
use vstd::prelude::*;

use crate::date::{
    days_in_month, lemma_days_before_month_mono, lemma_days_before_month_step,
    lemma_whole_days_from_midnight, lemma_whole_days_to_midnight, month_length, whole_days,
    whole_days_between, Timestamp,
};
use crate::digits::{dec_nat, num_string};

verus! {

/// The position of one timestamp within its calendar quarter: the quarter's
/// number and boundary days, the full weeks of the quarter already elapsed,
/// and the calendar days that remain. Constructed once, never mutated.
#[derive(Clone, PartialEq, Eq, Debug)]
pub struct CorporateCoordinates {
    /// The input timestamp, carried through unmodified.
    pub generation_time: Timestamp,
    /// The calendar year of `generation_time`, as text.
    pub year: String,
    /// The quarter number, 1 through 4.
    pub quarter: u32,
    /// Local midnight on the first calendar day of the quarter.
    pub start_of_quarter: Timestamp,
    /// Local midnight on the last calendar day of the quarter.
    pub end_of_quarter: Timestamp,
    /// Whole days elapsed since `start_of_quarter`, divided by 7.
    pub full_week_of_quarter_done: u32,
    /// The fixed nominal week count of a quarter: always 13, never computed.
    pub weeks_in_quarter: u32,
    /// Days remaining through the quarter's last day, counting that day.
    pub days_left_in_quarter: u32,
    /// Whole days between `start_of_quarter` and `end_of_quarter`.
    pub days_in_quarter: u32,
}

/// The quarter of a 1-based calendar month: the ceiling of `m / 3`.
pub open spec fn quarter_of_month(m: int) -> int {
    (m + 2) / 3
}

/// Local midnight on the first calendar day of the quarter containing `t`,
/// in `t`'s offset.
pub open spec fn quarter_start(t: Timestamp) -> Timestamp {
    Timestamp {
        year: t.year,
        month: (3 * quarter_of_month(t.month as int) - 2) as u8,
        day: 1,
        hour: 0,
        minute: 0,
        second: 0,
        offset_seconds: t.offset_seconds,
    }
}

/// Local midnight on the last calendar day of the quarter containing `t`,
/// in `t`'s offset.
pub open spec fn quarter_end(t: Timestamp) -> Timestamp {
    Timestamp {
        year: t.year,
        month: (3 * quarter_of_month(t.month as int)) as u8,
        day: days_in_month(t.year as int, 3 * quarter_of_month(t.month as int)) as u8,
        hour: 0,
        minute: 0,
        second: 0,
        offset_seconds: t.offset_seconds,
    }
}

/// Everything `generate_coordinates` promises of its result: each field is a
/// fixed function of the input timestamp.
pub open spec fn coordinates_for(t: Timestamp, c: CorporateCoordinates) -> bool {
    &&& c.generation_time == t
    &&& c.year@ == dec_nat(t.year as nat)
    &&& c.quarter as int == quarter_of_month(t.month as int)
    &&& c.start_of_quarter == quarter_start(t)
    &&& c.end_of_quarter == quarter_end(t)
    &&& c.full_week_of_quarter_done as int == whole_days_between(quarter_start(t), t) / 7
    &&& c.weeks_in_quarter == 13
    &&& c.days_left_in_quarter as int == whole_days_between(t, quarter_end(t)) + 1
    &&& c.days_in_quarter as int == whole_days_between(quarter_start(t), quarter_end(t))
}

impl CorporateCoordinates {
    /// The record's internal invariant: valid boundary timestamps, a quarter
    /// number in range, and positive day counts.
    pub open spec fn wf(self) -> bool {
        &&& self.generation_time.wf()
        &&& self.start_of_quarter.wf()
        &&& self.end_of_quarter.wf()
        &&& 1 <= self.quarter <= 4
        &&& 1 <= self.days_in_quarter
        &&& 1 <= self.days_left_in_quarter
    }
}

/// The quarter boundaries of a valid timestamp are valid midnight timestamps,
/// and their calendar days bracket the timestamp's day.
pub proof fn lemma_quarter_day_order(t: Timestamp)
    requires
        t.wf(),
    ensures
        quarter_start(t).wf(),
        quarter_end(t).wf(),
        quarter_start(t).second_of_day() == 0,
        quarter_end(t).second_of_day() == 0,
        quarter_start(t).day_index() <= t.day_index(),
        t.day_index() <= quarter_end(t).day_index(),
        1 <= quarter_end(t).day_index() - quarter_start(t).day_index() <= 92,
{
    let y = t.year as int;
    let m = t.month as int;
    let q = quarter_of_month(m);
    let sm = 3 * q - 2;
    let em = 3 * q;
    assert(1 <= q <= 4);
    assert(sm <= m <= em);
    lemma_days_before_month_mono(y, sm, m);
    lemma_days_before_month_step(y, m);
    lemma_days_before_month_mono(y, m + 1, em + 1);
    lemma_days_before_month_step(y, em);
    lemma_days_before_month_step(y, sm);
    lemma_days_before_month_step(y, sm + 1);
}

/// Computes the fiscal-calendar position of `now` within its quarter.
///
/// Total over valid timestamps: every field of the result is pinned by
/// `coordinates_for`, the quarter number is the ceiling of `month / 3` and
/// brackets the month, and the elapsed full weeks never exceed the quarter's
/// nominal week capacity.
pub fn generate_coordinates(now: &Timestamp) -> (r: CorporateCoordinates)
    requires
        now.wf(),
    ensures
        coordinates_for(*now, r),
        r.wf(),
        3 * r.quarter - 2 <= now.month as int <= 3 * r.quarter,
        r.full_week_of_quarter_done as int <= r.days_in_quarter as int / 7,
{
    let quarter: u32 = (now.month as u32 + 2) / 3;
    let start_month: u8 = (3 * quarter - 2) as u8;
    let end_month: u8 = (3 * quarter) as u8;
    let start_of_quarter = Timestamp {
        year: now.year,
        month: start_month,
        day: 1,
        hour: 0,
        minute: 0,
        second: 0,
        offset_seconds: now.offset_seconds,
    };
    let end_day: u8 = month_length(now.year, end_month);
    let end_of_quarter = Timestamp {
        year: now.year,
        month: end_month,
        day: end_day,
        hour: 0,
        minute: 0,
        second: 0,
        offset_seconds: now.offset_seconds,
    };
    proof {
        lemma_quarter_day_order(*now);
        assert(start_of_quarter == quarter_start(*now));
        assert(end_of_quarter == quarter_end(*now));
        lemma_whole_days_from_midnight(quarter_start(*now), *now);
        lemma_whole_days_to_midnight(*now, quarter_end(*now));
        lemma_whole_days_from_midnight(quarter_start(*now), quarter_end(*now));
    }
    let elapsed: i64 = whole_days(&start_of_quarter, now);
    let until_end: i64 = whole_days(now, &end_of_quarter);
    let span: i64 = whole_days(&start_of_quarter, &end_of_quarter);
    proof {
        lemma_div_is_ordered(elapsed as int, span as int, 7);
    }
    CorporateCoordinates {
        generation_time: *now,
        year: num_string(now.year as u64),
        quarter,
        start_of_quarter,
        end_of_quarter,
        full_week_of_quarter_done: (elapsed as u64 / 7) as u32,
        weeks_in_quarter: 13,
        days_left_in_quarter: (until_end + 1) as u32,
        days_in_quarter: span as u32,
    }
}

/// A timestamp never precedes the start of its quarter; and it precedes or
/// equals the end-of-quarter midnight unless it lies strictly after midnight
/// on the quarter's last calendar day.
pub proof fn lemma_timestamp_within_quarter(t: Timestamp)
    requires
        t.wf(),
    ensures
        quarter_start(t).instant_seconds() <= t.instant_seconds(),
        t.day_index() < quarter_end(t).day_index() || t.second_of_day() == 0
            ==> t.instant_seconds() <= quarter_end(t).instant_seconds(),
{
    lemma_quarter_day_order(t);
}

/// Two coordinate records for one and the same timestamp agree in every
/// field: the record is a function of the input timestamp alone.
pub proof fn lemma_coordinates_deterministic(
    t: Timestamp,
    a: CorporateCoordinates,
    b: CorporateCoordinates,
)
    requires
        coordinates_for(t, a),
        coordinates_for(t, b),
    ensures
        a.generation_time == b.generation_time,
        a.year@ == b.year@,
        a.quarter == b.quarter,
        a.start_of_quarter == b.start_of_quarter,
        a.end_of_quarter == b.end_of_quarter,
        a.full_week_of_quarter_done == b.full_week_of_quarter_done,
        a.weeks_in_quarter == b.weeks_in_quarter,
        a.days_left_in_quarter == b.days_left_in_quarter,
        a.days_in_quarter == b.days_in_quarter,
{
}

} // verus!
