//! A proleptic Gregorian calendar: dates, their day counts from
//! 1970-01-01 and UNIX times, weekdays, leap years and month lengths, and a
//! lenient parser that finds a date in free text.
use vstd::prelude::*;

pub mod civil;
pub mod date;
pub mod day;
pub mod days_in_month;
pub mod days_in_year;
pub mod free;
pub mod month;
pub mod parse;
pub mod text;
pub mod weekday;
pub mod year;

pub use crate::date::Date;
pub use crate::day::Day;
pub use crate::days_in_month::DaysInMonth;
pub use crate::days_in_year::DaysInYear;
pub use crate::free::{days_in_month, is_leap};
pub use crate::month::Month;
pub use crate::weekday::Weekday;
pub use crate::year::Year;

verus! {

} // verus!
