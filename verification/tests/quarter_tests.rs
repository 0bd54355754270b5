use chrono::{Datelike, Timelike};
use quarter_calendar::clock::current_timestamp;
use quarter_calendar::date::{instant_seconds_of, Timestamp};
use quarter_calendar::digits::{num_string, pad2_string, pad4_string};
use quarter_calendar::quarter::generate_coordinates;
use quarter_calendar::render::render_summary;

fn ts(s: &str) -> Timestamp {
    let d = chrono::DateTime::parse_from_rfc3339(s).unwrap();
    Timestamp::new(
        d.year(),
        d.month() as u8,
        d.day() as u8,
        d.hour() as u8,
        d.minute() as u8,
        d.second() as u8,
        d.offset().local_minus_utc(),
    )
    .unwrap()
}

fn now() -> Timestamp {
    current_timestamp().unwrap()
}

#[test]
fn test_generation_time() {
    let t = now();
    assert_eq!(t, generate_coordinates(&t).generation_time)
}

#[test]
fn test_year_correct() {
    let t = now();
    assert_eq!(format!("{}", t.year), generate_coordinates(&t).year)
}

#[test]
fn test_quarters_correct() {
    let q1_jan = ts("1999-01-01T16:39:57+00:00");
    let q1_feb = ts("1999-02-01T16:39:57+00:00");
    let q1_mar = ts("1999-03-01T16:39:57+00:00");

    let q2_apr = ts("1999-04-01T16:39:57+00:00");
    let q2_may = ts("1999-05-01T16:39:57+00:00");
    let q2_jun = ts("1999-06-01T16:39:57+00:00");

    let q3_jul = ts("1999-07-01T16:39:57+00:00");
    let q3_aug = ts("1999-08-01T16:39:57+00:00");
    let q3_sep = ts("1999-09-01T16:39:57+00:00");

    let q4_oct = ts("1999-10-01T16:39:57+00:00");
    let q4_nov = ts("1999-11-01T16:39:57+00:00");
    let q4_dec = ts("1999-12-01T16:39:57+00:00");

    assert_eq!(1, generate_coordinates(&q1_jan).quarter);
    assert_eq!(1, generate_coordinates(&q1_feb).quarter);
    assert_eq!(1, generate_coordinates(&q1_mar).quarter);

    assert_eq!(2, generate_coordinates(&q2_apr).quarter);
    assert_eq!(2, generate_coordinates(&q2_may).quarter);
    assert_eq!(2, generate_coordinates(&q2_jun).quarter);

    assert_eq!(3, generate_coordinates(&q3_jul).quarter);
    assert_eq!(3, generate_coordinates(&q3_aug).quarter);
    assert_eq!(3, generate_coordinates(&q3_sep).quarter);

    assert_eq!(4, generate_coordinates(&q4_oct).quarter);
    assert_eq!(4, generate_coordinates(&q4_nov).quarter);
    assert_eq!(4, generate_coordinates(&q4_dec).quarter);
}

#[test]
fn test_start_end_quarter() {
    let q1 = ts("1999-02-01T16:39:57+00:00");
    let q2 = ts("1999-05-01T16:39:57+00:00");
    let q3 = ts("1999-08-01T16:39:57+00:00");
    let q4 = ts("1999-11-01T16:39:57+00:00");

    let start_of_q1 = ts("1999-01-01T00:00:00+00:00");
    let end_of_q1 = ts("1999-03-31T00:00:00+00:00");
    assert_eq!(start_of_q1, generate_coordinates(&q1).start_of_quarter);
    assert_eq!(end_of_q1, generate_coordinates(&q1).end_of_quarter);

    let start_of_q2 = ts("1999-04-01T00:00:00+00:00");
    let end_of_q2 = ts("1999-06-30T00:00:00+00:00");
    assert_eq!(start_of_q2, generate_coordinates(&q2).start_of_quarter);
    assert_eq!(end_of_q2, generate_coordinates(&q2).end_of_quarter);

    let start_of_q3 = ts("1999-07-01T00:00:00+00:00");
    let end_of_q3 = ts("1999-09-30T00:00:00+00:00");
    assert_eq!(start_of_q3, generate_coordinates(&q3).start_of_quarter);
    assert_eq!(end_of_q3, generate_coordinates(&q3).end_of_quarter);

    let start_of_q4 = ts("1999-10-01T00:00:00+00:00");
    let end_of_q4 = ts("1999-12-31T00:00:00+00:00");
    assert_eq!(start_of_q4, generate_coordinates(&q4).start_of_quarter);
    assert_eq!(end_of_q4, generate_coordinates(&q4).end_of_quarter);
}

#[test]
fn test_weeks_per_quarter() {
    assert_eq!(52 / 4, generate_coordinates(&now()).weeks_in_quarter)
}

#[test]
fn test_completed_weeks_quarter() {
    let start_of_year = ts("1999-01-01T16:39:57+00:00");
    assert_eq!(
        generate_coordinates(&start_of_year).full_week_of_quarter_done,
        0
    );

    let first_week_feb = ts("1999-02-01T16:39:57+00:00");
    assert_eq!(
        generate_coordinates(&first_week_feb).full_week_of_quarter_done,
        4
    );

    let first_day_q2 = ts("1999-04-01T16:39:57+00:00");
    assert_eq!(
        generate_coordinates(&first_day_q2).full_week_of_quarter_done,
        0
    );

    let last_day_q2 = ts("1999-06-30T16:39:57+00:00");
    assert_eq!(
        generate_coordinates(&last_day_q2).full_week_of_quarter_done,
        12
    );
}

#[test]
fn test_days_left_in_quarter() {
    let first_day_q2 = chrono::DateTime::parse_from_rfc3339("1999-04-01T16:39:57+00:00").unwrap();
    let last_day_q2 = chrono::DateTime::parse_from_rfc3339("1999-06-30T16:39:57+00:00").unwrap();
    assert_eq!(generate_coordinates(&ts("1999-04-01T16:39:57+00:00")).quarter, 2);
    assert_eq!(
        generate_coordinates(&ts("1999-04-01T16:39:57+00:00")).days_left_in_quarter as i64,
        last_day_q2.signed_duration_since(first_day_q2).num_days()
    );
    assert_eq!(
        generate_coordinates(&ts("1999-06-30T16:39:57+00:00")).days_left_in_quarter,
        1
    );
}

#[test]
fn test_days_in_quarter() {
    let first_day_q2 = ts("1999-04-01T16:39:57+00:00");
    assert_eq!(generate_coordinates(&first_day_q2).days_in_quarter, 90);
}

#[test]
fn test_compute_is_idempotent() {
    let t = ts("1999-06-30T16:39:57+00:00");
    let a = generate_coordinates(&t);
    let b = generate_coordinates(&t);
    assert_eq!(a, b);
}

#[test]
fn test_timestamp_between_quarter_bounds() {
    let t = ts("1999-05-17T08:15:00+02:00");
    let c = generate_coordinates(&t);
    assert!(instant_seconds_of(&c.start_of_quarter) <= instant_seconds_of(&t));
    let midnight = ts("1999-06-30T00:00:00+02:00");
    let cm = generate_coordinates(&midnight);
    assert!(instant_seconds_of(&midnight) <= instant_seconds_of(&cm.end_of_quarter));
}

#[test]
fn test_leap_year_first_quarter() {
    let t = ts("2000-02-29T12:00:00+00:00");
    let c = generate_coordinates(&t);
    assert_eq!(c.quarter, 1);
    assert_eq!(c.end_of_quarter, ts("2000-03-31T00:00:00+00:00"));
    assert_eq!(c.days_in_quarter, 90);
}

#[test]
fn test_non_leap_year_first_quarter() {
    let t = ts("1999-01-01T16:39:57+00:00");
    let c = generate_coordinates(&t);
    assert_eq!(c.days_in_quarter, 89);
    assert_eq!(c.days_left_in_quarter, 89);
}

#[test]
fn test_year_end_quarter() {
    let t = ts("1999-12-31T23:59:59+00:00");
    let c = generate_coordinates(&t);
    assert_eq!(c.quarter, 4);
    assert_eq!(c.days_left_in_quarter, 1);
    assert_eq!(c.full_week_of_quarter_done, 13);
    assert_eq!(c.days_in_quarter, 91);
}

#[test]
fn test_timestamp_new_validates() {
    assert!(Timestamp::new(1999, 2, 28, 0, 0, 0, 0).is_some());
    assert!(Timestamp::new(1999, 2, 29, 0, 0, 0, 0).is_none());
    assert!(Timestamp::new(2000, 2, 29, 0, 0, 0, 0).is_some());
    assert!(Timestamp::new(1900, 2, 29, 0, 0, 0, 0).is_none());
    assert!(Timestamp::new(1999, 4, 31, 0, 0, 0, 0).is_none());
    assert!(Timestamp::new(1999, 13, 1, 0, 0, 0, 0).is_none());
    assert!(Timestamp::new(1999, 0, 1, 0, 0, 0, 0).is_none());
    assert!(Timestamp::new(0, 1, 1, 0, 0, 0, 0).is_none());
    assert!(Timestamp::new(10000, 1, 1, 0, 0, 0, 0).is_none());
    assert!(Timestamp::new(1999, 1, 1, 24, 0, 0, 0).is_none());
    assert!(Timestamp::new(1999, 1, 1, 0, 60, 0, 0).is_none());
    assert!(Timestamp::new(1999, 1, 1, 0, 0, 60, 0).is_none());
    assert!(Timestamp::new(1999, 1, 1, 0, 0, 0, 86400).is_none());
    assert!(Timestamp::new(1999, 1, 1, 0, 0, 0, -86400).is_none());
    assert!(Timestamp::new(1999, 1, 1, 0, 0, 0, -86399).is_some());
}

#[test]
fn test_render_first_day_of_quarter() {
    let c = generate_coordinates(&ts("1999-04-01T16:39:57+00:00"));
    let lines = render_summary(&c);
    assert_eq!(lines.len(), 4);
    assert_eq!(lines[0], "We are 0 weeks into Q2, 1999.");
    assert_eq!(
        lines[1],
        "The quarter started Thursday, 01 April and will end Wednesday, 30 June (each quarter is 13 weeks)."
    );
    assert_eq!(
        lines[2],
        "There is 100.00% of the quarter remaining (90 calendar days)."
    );
    assert_eq!(lines[3], "The time and date now is 1999-04-01T16:39:57+00:00.");
}

#[test]
fn test_render_last_day_of_quarter() {
    let c = generate_coordinates(&ts("1999-06-30T16:39:57+00:00"));
    let lines = render_summary(&c);
    assert_eq!(lines[0], "We are 12 weeks into Q2, 1999.");
    assert_eq!(
        lines[2],
        "There is 1.11% of the quarter remaining (1 calendar days)."
    );
}

#[test]
fn test_render_negative_offset() {
    let c = generate_coordinates(&ts("2024-11-05T08:30:00-05:00"));
    let lines = render_summary(&c);
    assert_eq!(lines[3], "The time and date now is 2024-11-05T08:30:00-05:00.");
    assert_eq!(
        lines[1],
        "The quarter started Tuesday, 01 October and will end Tuesday, 31 December (each quarter is 13 weeks)."
    );
}

#[test]
fn test_numerals() {
    assert_eq!(num_string(0), "0");
    assert_eq!(num_string(1066), "1066");
    assert_eq!(pad2_string(7), "07");
    assert_eq!(pad2_string(42), "42");
    assert_eq!(pad4_string(7), "0007");
    assert_eq!(pad4_string(86), "0086");
    assert_eq!(pad4_string(999), "0999");
    assert_eq!(pad4_string(1999), "1999");
}
