//! Leap years and month lengths for any `i128` year.
use vstd::prelude::*;
use crate::civil::{is_leap_year, month_length};
use crate::days_in_month::DaysInMonth;
use crate::month::Month;

verus! {

/// Whether `year` is a leap year: divisible by 4, and not by 100 unless
/// also by 400. Negative years follow the same rule: -4 and -400 are leap
/// years, -100 is not.
pub fn is_leap(year: i128) -> (r: bool)
    ensures
        r == is_leap_year(year as int),
{
    year % 4 == 0 && (year % 100 != 0 || year % 400 == 0)
}

/// The number of days in `month` of `year`.
pub fn days_in_month(year: i128, month: Month) -> (r: DaysInMonth)
    ensures
        r.spec_inner() == month_length(year as int, month.spec_inner() as int),
{
    match month {
        Month::April | Month::June | Month::September | Month::November => DaysInMonth::Thirty,
        Month::February => if is_leap(year) {
            DaysInMonth::TwentyNine
        } else {
            DaysInMonth::TwentyEight
        },
        _ => DaysInMonth::ThirtyOne,
    }
}

} // verus!
