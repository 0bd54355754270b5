//! Fiscal-calendar position of a timestamp.
//!
//! Given a calendar timestamp with a fixed UTC offset, the library computes
//! which quarter of the year the timestamp falls in, the quarter's first and
//! last calendar day, how many full weeks of the quarter have elapsed, and
//! how many calendar days remain. A presenter turns the record into four
//! human-readable lines.

pub mod clock;
pub mod date;
pub mod digits;
pub mod quarter;
pub mod render;
