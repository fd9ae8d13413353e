//! The length of a year.
use vstd::prelude::*;

verus! {

/// How many days a year has: 365, or 366 in a leap year.
#[derive(Copy, Clone, Debug, Default, PartialEq, Eq, Structural, PartialOrd, Ord, Hash)]
pub enum DaysInYear {
    #[default]
    ThreeSixFive,
    ThreeSixSix,
}

impl DaysInYear {
    /// The number of days, 365 or 366.
    pub open spec fn spec_inner(self) -> u16 {
        match self {
            DaysInYear::ThreeSixFive => 365,
            DaysInYear::ThreeSixSix => 366,
        }
    }

    /// The number of days, 365 or 366.
    #[verifier::when_used_as_spec(spec_inner)]
    pub fn inner(self) -> (r: u16)
        ensures
            r == self.spec_inner(),
    {
        match self {
            DaysInYear::ThreeSixFive => 365,
            DaysInYear::ThreeSixSix => 366,
        }
    }

    /// Whether the year has 365 days.
    pub fn is_365(self) -> (r: bool)
        ensures
            r == (self.spec_inner() == 365),
    {
        match self {
            DaysInYear::ThreeSixFive => true,
            DaysInYear::ThreeSixSix => false,
        }
    }

    /// Whether the year has 366 days.
    pub fn is_366(self) -> (r: bool)
        ensures
            r == (self.spec_inner() == 366),
    {
        match self {
            DaysInYear::ThreeSixFive => false,
            DaysInYear::ThreeSixSix => true,
        }
    }

    /// Variant name: `ThreeSixFive`.
    pub open spec fn spec_as_str(self) -> Seq<char> {
        match self {
            DaysInYear::ThreeSixFive => "ThreeSixFive"@,
            DaysInYear::ThreeSixSix => "ThreeSixSix"@,
        }
    }

    /// Variant name: `ThreeSixFive`.
    pub fn as_str(self) -> (r: &'static str)
        ensures
            r@ == self.spec_as_str(),
    {
        match self {
            DaysInYear::ThreeSixFive => "ThreeSixFive",
            DaysInYear::ThreeSixSix => "ThreeSixSix",
        }
    }

    /// Number in decimal: `365`.
    pub open spec fn spec_as_str_num(self) -> Seq<char> {
        match self {
            DaysInYear::ThreeSixFive => "365"@,
            DaysInYear::ThreeSixSix => "366"@,
        }
    }

    /// Number in decimal: `365`.
    pub fn as_str_num(self) -> (r: &'static str)
        ensures
            r@ == self.spec_as_str_num(),
    {
        match self {
            DaysInYear::ThreeSixFive => "365",
            DaysInYear::ThreeSixSix => "366",
        }
    }

    /// Variant name in lowercase: `threesixfive`.
    pub open spec fn spec_as_str_lower(self) -> Seq<char> {
        match self {
            DaysInYear::ThreeSixFive => "threesixfive"@,
            DaysInYear::ThreeSixSix => "threesixsix"@,
        }
    }

    /// Variant name in lowercase: `threesixfive`.
    pub fn as_str_lower(self) -> (r: &'static str)
        ensures
            r@ == self.spec_as_str_lower(),
    {
        match self {
            DaysInYear::ThreeSixFive => "threesixfive",
            DaysInYear::ThreeSixSix => "threesixsix",
        }
    }

    /// Variant name in uppercase: `THREESIXFIVE`.
    pub open spec fn spec_as_str_upper(self) -> Seq<char> {
        match self {
            DaysInYear::ThreeSixFive => "THREESIXFIVE"@,
            DaysInYear::ThreeSixSix => "THREESIXSIX"@,
        }
    }

    /// Variant name in uppercase: `THREESIXFIVE`.
    pub fn as_str_upper(self) -> (r: &'static str)
        ensures
            r@ == self.spec_as_str_upper(),
    {
        match self {
            DaysInYear::ThreeSixFive => "THREESIXFIVE",
            DaysInYear::ThreeSixSix => "THREESIXSIX",
        }
    }
}

} // verus!
