//! Months of the year.
use vstd::prelude::*;
use crate::civil::{saturate_field, wrap_field};
use crate::text::{eq_ignore_case, eq_padded, full_match, padded_match};
use vstd::string::StringSliceAdditionalSpecFns;

verus! {

/// A month of the year, numbered 1 (January) to 12 (December).
#[derive(Copy, Clone, Debug, Default, PartialEq, Eq, Structural, PartialOrd, Ord, Hash)]
pub enum Month {
    #[default]
    January,
    February,
    March,
    April,
    May,
    June,
    July,
    August,
    September,
    October,
    November,
    December,
}

impl Month {
    /// The number of this month, 1..=12.
    pub open spec fn spec_inner(self) -> u8 {
        match self {
            Month::January => 1,
            Month::February => 2,
            Month::March => 3,
            Month::April => 4,
            Month::May => 5,
            Month::June => 6,
            Month::July => 7,
            Month::August => 8,
            Month::September => 9,
            Month::October => 10,
            Month::November => 11,
            Month::December => 12,
        }
    }

    /// The number of this month, 1..=12.
    #[verifier::when_used_as_spec(spec_inner)]
    pub fn inner(self) -> (r: u8)
        ensures
            r == self.spec_inner(),
            1 <= r <= 12,
    {
        match self {
            Month::January => 1,
            Month::February => 2,
            Month::March => 3,
            Month::April => 4,
            Month::May => 5,
            Month::June => 6,
            Month::July => 7,
            Month::August => 8,
            Month::September => 9,
            Month::October => 10,
            Month::November => 11,
            Month::December => 12,
        }
    }

    /// The month numbered `month`, which must be in 1..=12.
    pub fn new(month: u8) -> (r: Month)
        requires
            1 <= month <= 12,
        ensures
            r.spec_inner() == month,
    {
        match month {
            1 => Month::January,
            2 => Month::February,
            3 => Month::March,
            4 => Month::April,
            5 => Month::May,
            6 => Month::June,
            7 => Month::July,
            8 => Month::August,
            9 => Month::September,
            10 => Month::October,
            11 => Month::November,
            _ => Month::December,
        }
    }

    /// Same as `new`: the range of `month` is a precondition, proved at
    /// every call, so nothing is left to check at run time.
    pub fn new_unchecked(month: u8) -> (r: Month)
        requires
            1 <= month <= 12,
        ensures
            r.spec_inner() == month,
    {
        Month::new(month)
    }

    /// The month numbered `month`, clamped to 1..=12: 0 gives the first,
    /// anything above 12 the last.
    pub fn new_saturating(month: u8) -> (r: Month)
        ensures
            r.spec_inner() == saturate_field(month as int, 12),
    {
        if month == 0 {
            Month::January
        } else if month > 12 {
            Month::December
        } else {
            Month::new(month)
        }
    }

    /// The month numbered `month`, counted round the 12 values: a
    /// multiple of 12 (0 included) gives the last, 12 + 1 the first.
    pub fn new_wrapping(month: u8) -> (r: Month)
        ensures
            r.spec_inner() == wrap_field(month as int, 12),
    {
        let rem: u8 = month % 12;
        if rem == 0 {
            Month::December
        } else {
            Month::new(rem)
        }
    }

    /// Full English name, capitalised: `January`.
    pub open spec fn spec_as_str(self) -> Seq<char> {
        match self {
            Month::January => "January"@,
            Month::February => "February"@,
            Month::March => "March"@,
            Month::April => "April"@,
            Month::May => "May"@,
            Month::June => "June"@,
            Month::July => "July"@,
            Month::August => "August"@,
            Month::September => "September"@,
            Month::October => "October"@,
            Month::November => "November"@,
            Month::December => "December"@,
        }
    }

    /// Full English name, capitalised: `January`.
    pub fn as_str(self) -> (r: &'static str)
        ensures
            r@ == self.spec_as_str(),
    {
        match self {
            Month::January => "January",
            Month::February => "February",
            Month::March => "March",
            Month::April => "April",
            Month::May => "May",
            Month::June => "June",
            Month::July => "July",
            Month::August => "August",
            Month::September => "September",
            Month::October => "October",
            Month::November => "November",
            Month::December => "December",
        }
    }

    /// Full English name in lowercase: `january`.
    pub open spec fn spec_as_str_lower(self) -> Seq<char> {
        match self {
            Month::January => "january"@,
            Month::February => "february"@,
            Month::March => "march"@,
            Month::April => "april"@,
            Month::May => "may"@,
            Month::June => "june"@,
            Month::July => "july"@,
            Month::August => "august"@,
            Month::September => "september"@,
            Month::October => "october"@,
            Month::November => "november"@,
            Month::December => "december"@,
        }
    }

    /// Full English name in lowercase: `january`.
    pub fn as_str_lower(self) -> (r: &'static str)
        ensures
            r@ == self.spec_as_str_lower(),
    {
        match self {
            Month::January => "january",
            Month::February => "february",
            Month::March => "march",
            Month::April => "april",
            Month::May => "may",
            Month::June => "june",
            Month::July => "july",
            Month::August => "august",
            Month::September => "september",
            Month::October => "october",
            Month::November => "november",
            Month::December => "december",
        }
    }

    /// Full English name in uppercase: `JANUARY`.
    pub open spec fn spec_as_str_upper(self) -> Seq<char> {
        match self {
            Month::January => "JANUARY"@,
            Month::February => "FEBRUARY"@,
            Month::March => "MARCH"@,
            Month::April => "APRIL"@,
            Month::May => "MAY"@,
            Month::June => "JUNE"@,
            Month::July => "JULY"@,
            Month::August => "AUGUST"@,
            Month::September => "SEPTEMBER"@,
            Month::October => "OCTOBER"@,
            Month::November => "NOVEMBER"@,
            Month::December => "DECEMBER"@,
        }
    }

    /// Full English name in uppercase: `JANUARY`.
    pub fn as_str_upper(self) -> (r: &'static str)
        ensures
            r@ == self.spec_as_str_upper(),
    {
        match self {
            Month::January => "JANUARY",
            Month::February => "FEBRUARY",
            Month::March => "MARCH",
            Month::April => "APRIL",
            Month::May => "MAY",
            Month::June => "JUNE",
            Month::July => "JULY",
            Month::August => "AUGUST",
            Month::September => "SEPTEMBER",
            Month::October => "OCTOBER",
            Month::November => "NOVEMBER",
            Month::December => "DECEMBER",
        }
    }

    /// Three-letter name, capitalised: `Jan`.
    pub open spec fn spec_as_str_short(self) -> Seq<char> {
        match self {
            Month::January => "Jan"@,
            Month::February => "Feb"@,
            Month::March => "Mar"@,
            Month::April => "Apr"@,
            Month::May => "May"@,
            Month::June => "Jun"@,
            Month::July => "Jul"@,
            Month::August => "Aug"@,
            Month::September => "Sep"@,
            Month::October => "Oct"@,
            Month::November => "Nov"@,
            Month::December => "Dec"@,
        }
    }

    /// Three-letter name, capitalised: `Jan`.
    pub fn as_str_short(self) -> (r: &'static str)
        ensures
            r@ == self.spec_as_str_short(),
    {
        match self {
            Month::January => "Jan",
            Month::February => "Feb",
            Month::March => "Mar",
            Month::April => "Apr",
            Month::May => "May",
            Month::June => "Jun",
            Month::July => "Jul",
            Month::August => "Aug",
            Month::September => "Sep",
            Month::October => "Oct",
            Month::November => "Nov",
            Month::December => "Dec",
        }
    }

    /// Three-letter name in lowercase: `jan`.
    pub open spec fn spec_as_str_short_lower(self) -> Seq<char> {
        match self {
            Month::January => "jan"@,
            Month::February => "feb"@,
            Month::March => "mar"@,
            Month::April => "apr"@,
            Month::May => "may"@,
            Month::June => "jun"@,
            Month::July => "jul"@,
            Month::August => "aug"@,
            Month::September => "sep"@,
            Month::October => "oct"@,
            Month::November => "nov"@,
            Month::December => "dec"@,
        }
    }

    /// Three-letter name in lowercase: `jan`.
    pub fn as_str_short_lower(self) -> (r: &'static str)
        ensures
            r@ == self.spec_as_str_short_lower(),
    {
        match self {
            Month::January => "jan",
            Month::February => "feb",
            Month::March => "mar",
            Month::April => "apr",
            Month::May => "may",
            Month::June => "jun",
            Month::July => "jul",
            Month::August => "aug",
            Month::September => "sep",
            Month::October => "oct",
            Month::November => "nov",
            Month::December => "dec",
        }
    }

    /// Three-letter name in uppercase: `JAN`.
    pub open spec fn spec_as_str_short_upper(self) -> Seq<char> {
        match self {
            Month::January => "JAN"@,
            Month::February => "FEB"@,
            Month::March => "MAR"@,
            Month::April => "APR"@,
            Month::May => "MAY"@,
            Month::June => "JUN"@,
            Month::July => "JUL"@,
            Month::August => "AUG"@,
            Month::September => "SEP"@,
            Month::October => "OCT"@,
            Month::November => "NOV"@,
            Month::December => "DEC"@,
        }
    }

    /// Three-letter name in uppercase: `JAN`.
    pub fn as_str_short_upper(self) -> (r: &'static str)
        ensures
            r@ == self.spec_as_str_short_upper(),
    {
        match self {
            Month::January => "JAN",
            Month::February => "FEB",
            Month::March => "MAR",
            Month::April => "APR",
            Month::May => "MAY",
            Month::June => "JUN",
            Month::July => "JUL",
            Month::August => "AUG",
            Month::September => "SEP",
            Month::October => "OCT",
            Month::November => "NOV",
            Month::December => "DEC",
        }
    }

    /// Number in decimal, without padding: `1`.
    pub open spec fn spec_as_str_num(self) -> Seq<char> {
        match self {
            Month::January => "1"@,
            Month::February => "2"@,
            Month::March => "3"@,
            Month::April => "4"@,
            Month::May => "5"@,
            Month::June => "6"@,
            Month::July => "7"@,
            Month::August => "8"@,
            Month::September => "9"@,
            Month::October => "10"@,
            Month::November => "11"@,
            Month::December => "12"@,
        }
    }

    /// Number in decimal, without padding: `1`.
    pub fn as_str_num(self) -> (r: &'static str)
        ensures
            r@ == self.spec_as_str_num(),
    {
        match self {
            Month::January => "1",
            Month::February => "2",
            Month::March => "3",
            Month::April => "4",
            Month::May => "5",
            Month::June => "6",
            Month::July => "7",
            Month::August => "8",
            Month::September => "9",
            Month::October => "10",
            Month::November => "11",
            Month::December => "12",
        }
    }

    /// Japanese name.
    pub open spec fn spec_as_str_jp(self) -> Seq<char> {
        match self {
            Month::January => "一月"@,
            Month::February => "二月"@,
            Month::March => "三月"@,
            Month::April => "四月"@,
            Month::May => "五月"@,
            Month::June => "六月"@,
            Month::July => "七月"@,
            Month::August => "八月"@,
            Month::September => "九月"@,
            Month::October => "十月"@,
            Month::November => "十一月"@,
            Month::December => "十二月"@,
        }
    }

    /// Japanese name.
    pub fn as_str_jp(self) -> (r: &'static str)
        ensures
            r@ == self.spec_as_str_jp(),
    {
        match self {
            Month::January => "一月",
            Month::February => "二月",
            Month::March => "三月",
            Month::April => "四月",
            Month::May => "五月",
            Month::June => "六月",
            Month::July => "七月",
            Month::August => "八月",
            Month::September => "九月",
            Month::October => "十月",
            Month::November => "十一月",
            Month::December => "十二月",
        }
    }

    /// `b` is one of the forms this month is parsed from: its full or
    /// three-letter name in any ASCII case, its number, or its number
    /// padded with a leading `0`.
    pub open spec fn is_token(self, b: Seq<u8>) -> bool {
        ||| full_match(b, self.spec_as_str_lower())
        ||| full_match(b, self.spec_as_str_short_lower())
        ||| full_match(b, self.spec_as_str_num())
        ||| padded_match(b, self.spec_as_str_num())
    }

    /// What parsing `b` gives: the first month (in order) of which `b` is
    /// a form, or `None` when `b` is no form of any.
    pub open spec fn spec_parse(b: Seq<u8>) -> Option<Month> {
        if exists|k: Month| k.is_token(b) {
            Some(choose|v: Month| Month::first_token(v, b))
        } else {
            None
        }
    }

    /// `v` is a form of `b`, and no earlier month is.
    pub open spec fn first_token(v: Month, b: Seq<u8>) -> bool {
        v.is_token(b) && forall|k: Month| k.spec_inner() < v.spec_inner() ==> !#[trigger] k.is_token(b)
    }

    /// Whether `b` is one of the forms of this month.
    fn matches_token(self, b: &[u8]) -> (r: bool)
        ensures
            r == self.is_token(b@),
    {
        eq_ignore_case(b, self.as_str_lower()) || eq_ignore_case(b, self.as_str_short_lower())
            || eq_ignore_case(b, self.as_str_num()) || eq_padded(b, self.as_str_num())
    }

    /// Parse any form of a month listed in `is_token`, ignoring ASCII case.
    pub fn from_bytes(bytes: &[u8]) -> (r: Option<Month>)
        ensures
            r == Month::spec_parse(bytes@),
    {
        let mut n: u8 = 1;
        while n <= 12
            invariant
                1 <= n <= 13,
                forall|k: Month| k.spec_inner() < n ==> !#[trigger] k.is_token(bytes@),
            decreases 13 - n,
        {
            let v = Month::new(n);
            if v.matches_token(bytes) {
                proof {
                    assert(Month::first_token(v, bytes@));
                    assert forall|w: Month| Month::first_token(w, bytes@) implies w == v by {
                        assert(w.spec_inner() == v.spec_inner());
                    }
                }
                return Some(v);
            }
            n = n + 1;
        }
        assert forall|k: Month| !#[trigger] k.is_token(bytes@) by {
            assert(k.spec_inner() < 13);
        }
        None
    }

    /// Parse any form of a month listed in `is_token`, ignoring ASCII case.
    pub fn from_str(s: &str) -> (r: Option<Month>)
        ensures
            r == Month::spec_parse(s.spec_bytes()),
    {
        Month::from_bytes(s.as_bytes())
    }
}

} // verus!
