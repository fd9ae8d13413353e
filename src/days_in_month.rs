//! The length of a month.
use vstd::prelude::*;
use crate::day::Day;

verus! {

/// How many days a month has: 28, 29, 30 or 31.
#[derive(Copy, Clone, Debug, Default, PartialEq, Eq, Structural, PartialOrd, Ord, Hash)]
pub enum DaysInMonth {
    TwentyEight,
    TwentyNine,
    Thirty,
    #[default]
    ThirtyOne,
}

impl DaysInMonth {
    /// The number of days, 28..=31.
    pub open spec fn spec_inner(self) -> u8 {
        match self {
            DaysInMonth::TwentyEight => 28,
            DaysInMonth::TwentyNine => 29,
            DaysInMonth::Thirty => 30,
            DaysInMonth::ThirtyOne => 31,
        }
    }

    /// The number of days, 28..=31.
    #[verifier::when_used_as_spec(spec_inner)]
    pub fn inner(self) -> (r: u8)
        ensures
            r == self.spec_inner(),
            28 <= r <= 31,
    {
        match self {
            DaysInMonth::TwentyEight => 28,
            DaysInMonth::TwentyNine => 29,
            DaysInMonth::Thirty => 30,
            DaysInMonth::ThirtyOne => 31,
        }
    }

    /// The month length `day`, which must be in 28..=31.
    pub fn new(day: u8) -> (r: DaysInMonth)
        requires
            28 <= day <= 31,
        ensures
            r.spec_inner() == day,
    {
        match day {
            28 => DaysInMonth::TwentyEight,
            29 => DaysInMonth::TwentyNine,
            30 => DaysInMonth::Thirty,
            _ => DaysInMonth::ThirtyOne,
        }
    }

    /// Same as `new`: the range of `day` is a precondition, proved at every
    /// call, so nothing is left to check at run time.
    pub fn new_unchecked(day: u8) -> (r: DaysInMonth)
        requires
            28 <= day <= 31,
        ensures
            r.spec_inner() == day,
    {
        DaysInMonth::new(day)
    }

    /// Variant name: `ThirtyOne`.
    pub open spec fn spec_as_str(self) -> Seq<char> {
        match self {
            DaysInMonth::TwentyEight => "TwentyEight"@,
            DaysInMonth::TwentyNine => "TwentyNine"@,
            DaysInMonth::Thirty => "Thirty"@,
            DaysInMonth::ThirtyOne => "ThirtyOne"@,
        }
    }

    /// Variant name: `ThirtyOne`.
    pub fn as_str(self) -> (r: &'static str)
        ensures
            r@ == self.spec_as_str(),
    {
        match self {
            DaysInMonth::TwentyEight => "TwentyEight",
            DaysInMonth::TwentyNine => "TwentyNine",
            DaysInMonth::Thirty => "Thirty",
            DaysInMonth::ThirtyOne => "ThirtyOne",
        }
    }

    /// Number in decimal: `31`.
    pub open spec fn spec_as_str_num(self) -> Seq<char> {
        match self {
            DaysInMonth::TwentyEight => "28"@,
            DaysInMonth::TwentyNine => "29"@,
            DaysInMonth::Thirty => "30"@,
            DaysInMonth::ThirtyOne => "31"@,
        }
    }

    /// Number in decimal: `31`.
    pub fn as_str_num(self) -> (r: &'static str)
        ensures
            r@ == self.spec_as_str_num(),
    {
        match self {
            DaysInMonth::TwentyEight => "28",
            DaysInMonth::TwentyNine => "29",
            DaysInMonth::Thirty => "30",
            DaysInMonth::ThirtyOne => "31",
        }
    }

    /// The last day as an ordinal word in lowercase: `thirtyfirst`.
    pub open spec fn spec_as_str_lower(self) -> Seq<char> {
        match self {
            DaysInMonth::TwentyEight => "twentyeighth"@,
            DaysInMonth::TwentyNine => "twentyninth"@,
            DaysInMonth::Thirty => "thirtieth"@,
            DaysInMonth::ThirtyOne => "thirtyfirst"@,
        }
    }

    /// The last day as an ordinal word in lowercase: `thirtyfirst`.
    pub fn as_str_lower(self) -> (r: &'static str)
        ensures
            r@ == self.spec_as_str_lower(),
    {
        match self {
            DaysInMonth::TwentyEight => "twentyeighth",
            DaysInMonth::TwentyNine => "twentyninth",
            DaysInMonth::Thirty => "thirtieth",
            DaysInMonth::ThirtyOne => "thirtyfirst",
        }
    }

    /// The last day as an ordinal word in uppercase: `THIRTYFIRST`.
    pub open spec fn spec_as_str_upper(self) -> Seq<char> {
        match self {
            DaysInMonth::TwentyEight => "TWENTYEIGHTH"@,
            DaysInMonth::TwentyNine => "TWENTYNINTH"@,
            DaysInMonth::Thirty => "THIRTIETH"@,
            DaysInMonth::ThirtyOne => "THIRTYFIRST"@,
        }
    }

    /// The last day as an ordinal word in uppercase: `THIRTYFIRST`.
    pub fn as_str_upper(self) -> (r: &'static str)
        ensures
            r@ == self.spec_as_str_upper(),
    {
        match self {
            DaysInMonth::TwentyEight => "TWENTYEIGHTH",
            DaysInMonth::TwentyNine => "TWENTYNINTH",
            DaysInMonth::Thirty => "THIRTIETH",
            DaysInMonth::ThirtyOne => "THIRTYFIRST",
        }
    }

    /// The last day of a month of this length.
    pub fn as_day(self) -> (r: Day)
        ensures
            r.spec_inner() == self.spec_inner(),
    {
        Day::new(self.inner())
    }
}

} // verus!
