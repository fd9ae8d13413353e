//! Years of the proleptic Gregorian calendar.
use vstd::prelude::*;
use vstd::string::StringSliceAdditionalSpecFns;
use crate::civil::{is_leap_year, month_length, year_length};
use crate::days_in_month::DaysInMonth;
use crate::days_in_year::DaysInYear;
use crate::free;
use crate::month::Month;
use crate::text::{decimal_value, read_digits};

verus! {

/// A year from -32768 to 32767. Year 0 and negative years are proleptic:
/// 0 is 1 BCE, -1 is 2 BCE.
#[derive(Copy, Clone, Debug, Default, PartialEq, Eq, Structural, PartialOrd, Ord, Hash)]
pub struct Year(pub i16);

/// What `Year::from_str` gives for the bytes `b`: the decimal integer they
/// write, when it fits in an `i16`.
pub open spec fn year_from_bytes(b: Seq<u8>) -> Option<Year> {
    match decimal_value(b) {
        Some(v) => if i16::MIN <= v <= i16::MAX {
            Some(Year(v as i16))
        } else {
            None
        },
        None => None,
    }
}

impl Year {
    /// Whether this is a leap year.
    pub fn is_leap(self) -> (r: bool)
        ensures
            r == is_leap_year(self.0 as int),
    {
        free::is_leap(self.0 as i128)
    }

    /// 366 in a leap year, else 365.
    pub fn days_in_year(self) -> (r: DaysInYear)
        ensures
            r.spec_inner() == year_length(self.0 as int),
    {
        if self.is_leap() {
            DaysInYear::ThreeSixSix
        } else {
            DaysInYear::ThreeSixFive
        }
    }

    /// The number of days in `month` of this year.
    pub fn days_in_month(self, month: Month) -> (r: DaysInMonth)
        ensures
            r.spec_inner() == month_length(self.0 as int, month.spec_inner() as int),
    {
        free::days_in_month(self.0 as i128, month)
    }

    /// The year number.
    pub fn inner(self) -> (r: i16)
        ensures
            r == self.0,
    {
        self.0
    }

    /// Parse a year written in decimal, with an optional `+` or `-` sign:
    /// `"2000"`, `"-32768"`, `"+7"`. Text that is not such a number, or one
    /// outside -32768..=32767, gives `None`.
    pub fn from_str(s: &str) -> (r: Option<Year>)
        ensures
            r == year_from_bytes(s.spec_bytes()),
    {
        let b = s.as_bytes();
        if b.len() == 0 {
            return None;
        }
        proof {
            assert(b@.subrange(1, b@.len() as int) =~= b@.drop_first());
        }
        if b[0] == 45 {
            match read_digits(b, 1, 32768) {
                Some(v) => Some(Year((0 - v as i32) as i16)),
                None => None,
            }
        } else if b[0] == 43 {
            match read_digits(b, 1, 32767) {
                Some(v) => Some(Year(v as i16)),
                None => None,
            }
        } else {
            proof {
                assert(b@.subrange(0, b@.len() as int) =~= b@);
            }
            match read_digits(b, 0, 32767) {
                Some(v) => Some(Year(v as i16)),
                None => None,
            }
        }
    }
}

} // verus!
