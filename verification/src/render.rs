//! The presenter: renders a coordinates record into four human-readable
//! lines, each pinned character for character by its contract.

use vstd::prelude::*;

use crate::date::{day_index_of, Timestamp};
use crate::digits::{dec_nat, num_string, pad2, pad2_string, pad4, pad4_string};
use crate::quarter::CorporateCoordinates;

verus! {

/// The English name of a weekday; 0 is Monday, which day 0 of the day index
/// (January 1 of year 1) falls on in the proleptic Gregorian calendar.
pub open spec fn weekday_name_text(w: int) -> Seq<char> {
    if w == 0 {
        "Monday"@
    } else if w == 1 {
        "Tuesday"@
    } else if w == 2 {
        "Wednesday"@
    } else if w == 3 {
        "Thursday"@
    } else if w == 4 {
        "Friday"@
    } else if w == 5 {
        "Saturday"@
    } else {
        "Sunday"@
    }
}

/// The English name of a 1-based calendar month.
pub open spec fn month_name_text(m: int) -> Seq<char> {
    if m == 1 {
        "January"@
    } else if m == 2 {
        "February"@
    } else if m == 3 {
        "March"@
    } else if m == 4 {
        "April"@
    } else if m == 5 {
        "May"@
    } else if m == 6 {
        "June"@
    } else if m == 7 {
        "July"@
    } else if m == 8 {
        "August"@
    } else if m == 9 {
        "September"@
    } else if m == 10 {
        "October"@
    } else if m == 11 {
        "November"@
    } else {
        "December"@
    }
}

/// A long-form calendar date: weekday name, two-digit day, month name.
pub open spec fn long_date_text(t: Timestamp) -> Seq<char> {
    weekday_name_text(t.day_index() % 7) + ", "@ + pad2(t.day as nat) + " "@ + month_name_text(
        t.month as int,
    )
}

/// A UTC offset as a signed hours-and-minutes suffix, seconds truncated.
pub open spec fn offset_text(off: int) -> Seq<char> {
    let a = if off < 0 {
        -off
    } else {
        off
    };
    (if off < 0 {
        "-"@
    } else {
        "+"@
    }) + pad2((a / 3600) as nat) + ":"@ + pad2(((a % 3600) / 60) as nat)
}

/// A timestamp in calendar notation with its offset, to whole seconds.
pub open spec fn iso_text(t: Timestamp) -> Seq<char> {
    pad4(t.year as nat) + "-"@ + pad2(t.month as nat) + "-"@ + pad2(t.day as nat) + "T"@ + pad2(
        t.hour as nat,
    ) + ":"@ + pad2(t.minute as nat) + ":"@ + pad2(t.second as nat) + offset_text(
        t.offset_seconds as int,
    )
}

/// The share of the quarter remaining, in hundredths of a percent, rounded to
/// the nearest hundredth with half a unit rounding up.
pub open spec fn percent_hundredths(left: int, total: int) -> int {
    (left * 10000 + total / 2) / total
}

/// First line: weeks elapsed and the quarter/year label.
pub open spec fn weeks_line(c: CorporateCoordinates) -> Seq<char> {
    "We are "@ + dec_nat(c.full_week_of_quarter_done as nat) + " weeks into Q"@ + dec_nat(
        c.quarter as nat,
    ) + ", "@ + c.year@ + "."@
}

/// Second line: the quarter's first and last day and its nominal week count.
pub open spec fn boundary_line(c: CorporateCoordinates) -> Seq<char> {
    "The quarter started "@ + long_date_text(c.start_of_quarter) + " and will end "@
        + long_date_text(c.end_of_quarter) + " (each quarter is "@ + dec_nat(
        c.weeks_in_quarter as nat,
    ) + " weeks)."@
}

/// Third line: percentage of the quarter remaining and the day count.
pub open spec fn remaining_line(c: CorporateCoordinates) -> Seq<char> {
    let p = percent_hundredths(c.days_left_in_quarter as int, c.days_in_quarter as int);
    "There is "@ + dec_nat((p / 100) as nat) + "."@ + pad2((p % 100) as nat)
        + "% of the quarter remaining ("@ + dec_nat(c.days_left_in_quarter as nat)
        + " calendar days)."@
}

/// Fourth line: the full generation timestamp.
pub open spec fn timestamp_line(c: CorporateCoordinates) -> Seq<char> {
    "The time and date now is "@ + iso_text(c.generation_time) + "."@
}

/// The name of the weekday with index `w`; 0 is Monday.
pub fn weekday_name(w: u32) -> (s: &'static str)
    requires
        w < 7,
    ensures
        s@ == weekday_name_text(w as int),
{
    if w == 0 {
        "Monday"
    } else if w == 1 {
        "Tuesday"
    } else if w == 2 {
        "Wednesday"
    } else if w == 3 {
        "Thursday"
    } else if w == 4 {
        "Friday"
    } else if w == 5 {
        "Saturday"
    } else {
        "Sunday"
    }
}

/// The name of a 1-based calendar month.
pub fn month_name(m: u8) -> (s: &'static str)
    requires
        1 <= m <= 12,
    ensures
        s@ == month_name_text(m as int),
{
    if m == 1 {
        "January"
    } else if m == 2 {
        "February"
    } else if m == 3 {
        "March"
    } else if m == 4 {
        "April"
    } else if m == 5 {
        "May"
    } else if m == 6 {
        "June"
    } else if m == 7 {
        "July"
    } else if m == 8 {
        "August"
    } else if m == 9 {
        "September"
    } else if m == 10 {
        "October"
    } else if m == 11 {
        "November"
    } else {
        "December"
    }
}

/// A long-form calendar date, such as `Friday, 01 January`.
pub fn long_date_string(t: &Timestamp) -> (s: String)
    requires
        t.wf(),
    ensures
        s@ == long_date_text(*t),
{
    let dn = day_index_of(t.year, t.month, t.day);
    let mut s = String::from_str(weekday_name(dn % 7));
    s.append(", ");
    s.append(pad2_string(t.day as u64).as_str());
    s.append(" ");
    s.append(month_name(t.month));
    proof {
        assert(s@ =~= long_date_text(*t));
    }
    s
}

/// A timestamp in calendar notation with its offset, such as
/// `1999-06-30T16:39:57+00:00`.
pub fn iso_string(t: &Timestamp) -> (s: String)
    requires
        t.wf(),
    ensures
        s@ == iso_text(*t),
{
    let mut s = pad4_string(t.year as u64);
    s.append("-");
    s.append(pad2_string(t.month as u64).as_str());
    s.append("-");
    s.append(pad2_string(t.day as u64).as_str());
    s.append("T");
    s.append(pad2_string(t.hour as u64).as_str());
    s.append(":");
    s.append(pad2_string(t.minute as u64).as_str());
    s.append(":");
    s.append(pad2_string(t.second as u64).as_str());
    let a: u32 = if t.offset_seconds < 0 {
        (-t.offset_seconds) as u32
    } else {
        t.offset_seconds as u32
    };
    let sign = if t.offset_seconds < 0 {
        "-"
    } else {
        "+"
    };
    s.append(sign);
    s.append(pad2_string((a / 3600) as u64).as_str());
    s.append(":");
    s.append(pad2_string(((a % 3600) / 60) as u64).as_str());
    proof {
        assert(s@ =~= iso_text(*t));
    }
    s
}

/// The share of the quarter remaining in hundredths of a percent.
pub fn percent_hundredths_val(left: u32, total: u32) -> (r: u64)
    requires
        total >= 1,
    ensures
        r as int == percent_hundredths(left as int, total as int),
{
    (left as u64 * 10000 + total as u64 / 2) / total as u64
}

/// Renders a coordinates record into its four display lines.
///
/// The lines report, in order: the full weeks elapsed and the quarter label;
/// the quarter's first and last day with the nominal week count; the share of
/// the quarter remaining with the remaining day count; and the generation
/// timestamp itself.
pub fn render_summary(c: &CorporateCoordinates) -> (lines: Vec<String>)
    requires
        c.wf(),
    ensures
        lines@.len() == 4,
        lines@[0]@ == weeks_line(*c),
        lines@[1]@ == boundary_line(*c),
        lines@[2]@ == remaining_line(*c),
        lines@[3]@ == timestamp_line(*c),
{
    let mut l1 = String::from_str("We are ");
    l1.append(num_string(c.full_week_of_quarter_done as u64).as_str());
    l1.append(" weeks into Q");
    l1.append(num_string(c.quarter as u64).as_str());
    l1.append(", ");
    l1.append(c.year.as_str());
    l1.append(".");
    proof {
        assert(l1@ =~= weeks_line(*c));
    }
    let mut l2 = String::from_str("The quarter started ");
    l2.append(long_date_string(&c.start_of_quarter).as_str());
    l2.append(" and will end ");
    l2.append(long_date_string(&c.end_of_quarter).as_str());
    l2.append(" (each quarter is ");
    l2.append(num_string(c.weeks_in_quarter as u64).as_str());
    l2.append(" weeks).");
    proof {
        assert(l2@ =~= boundary_line(*c));
    }
    let p: u64 = percent_hundredths_val(c.days_left_in_quarter, c.days_in_quarter);
    let mut l3 = String::from_str("There is ");
    l3.append(num_string(p / 100).as_str());
    l3.append(".");
    l3.append(pad2_string(p % 100).as_str());
    l3.append("% of the quarter remaining (");
    l3.append(num_string(c.days_left_in_quarter as u64).as_str());
    l3.append(" calendar days).");
    proof {
        assert(l3@ =~= remaining_line(*c));
    }
    let mut l4 = String::from_str("The time and date now is ");
    l4.append(iso_string(&c.generation_time).as_str());
    l4.append(".");
    proof {
        assert(l4@ =~= timestamp_line(*c));
    }
    let mut lines: Vec<String> = Vec::new();
    lines.push(l1);
    lines.push(l2);
    lines.push(l3);
    lines.push(l4);
    lines
}

} // verus!
