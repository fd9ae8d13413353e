//! Days of the month.
use vstd::prelude::*;
use crate::civil::{saturate_field, wrap_field};
use crate::text::{eq_ignore_case, eq_padded, full_match, lower_chars, padded_match};
use vstd::string::StringSliceAdditionalSpecFns;

verus! {

/// A day of the month, numbered 1 to 31. It does not know its month: `Day::ThirtyFirst` may be paired with any month.
#[derive(Copy, Clone, Debug, Default, PartialEq, Eq, Structural, PartialOrd, Ord, Hash)]
pub enum Day {
    #[default]
    First,
    Second,
    Third,
    Fourth,
    Fifth,
    Sixth,
    Seventh,
    Eighth,
    Ninth,
    Tenth,
    Eleventh,
    Twelfth,
    Thirteenth,
    Fourteenth,
    Fifteenth,
    Sixteenth,
    Seventeenth,
    Eighteenth,
    Nineteenth,
    Twentieth,
    TwentyFirst,
    TwentySecond,
    TwentyThird,
    TwentyFourth,
    TwentyFifth,
    TwentySixth,
    TwentySeventh,
    TwentyEighth,
    TwentyNinth,
    Thirtieth,
    ThirtyFirst,
}

impl Day {
    /// The number of this day, 1..=31.
    pub open spec fn spec_inner(self) -> u8 {
        match self {
            Day::First => 1,
            Day::Second => 2,
            Day::Third => 3,
            Day::Fourth => 4,
            Day::Fifth => 5,
            Day::Sixth => 6,
            Day::Seventh => 7,
            Day::Eighth => 8,
            Day::Ninth => 9,
            Day::Tenth => 10,
            Day::Eleventh => 11,
            Day::Twelfth => 12,
            Day::Thirteenth => 13,
            Day::Fourteenth => 14,
            Day::Fifteenth => 15,
            Day::Sixteenth => 16,
            Day::Seventeenth => 17,
            Day::Eighteenth => 18,
            Day::Nineteenth => 19,
            Day::Twentieth => 20,
            Day::TwentyFirst => 21,
            Day::TwentySecond => 22,
            Day::TwentyThird => 23,
            Day::TwentyFourth => 24,
            Day::TwentyFifth => 25,
            Day::TwentySixth => 26,
            Day::TwentySeventh => 27,
            Day::TwentyEighth => 28,
            Day::TwentyNinth => 29,
            Day::Thirtieth => 30,
            Day::ThirtyFirst => 31,
        }
    }

    /// The number of this day, 1..=31.
    #[verifier::when_used_as_spec(spec_inner)]
    pub fn inner(self) -> (r: u8)
        ensures
            r == self.spec_inner(),
            1 <= r <= 31,
    {
        match self {
            Day::First => 1,
            Day::Second => 2,
            Day::Third => 3,
            Day::Fourth => 4,
            Day::Fifth => 5,
            Day::Sixth => 6,
            Day::Seventh => 7,
            Day::Eighth => 8,
            Day::Ninth => 9,
            Day::Tenth => 10,
            Day::Eleventh => 11,
            Day::Twelfth => 12,
            Day::Thirteenth => 13,
            Day::Fourteenth => 14,
            Day::Fifteenth => 15,
            Day::Sixteenth => 16,
            Day::Seventeenth => 17,
            Day::Eighteenth => 18,
            Day::Nineteenth => 19,
            Day::Twentieth => 20,
            Day::TwentyFirst => 21,
            Day::TwentySecond => 22,
            Day::TwentyThird => 23,
            Day::TwentyFourth => 24,
            Day::TwentyFifth => 25,
            Day::TwentySixth => 26,
            Day::TwentySeventh => 27,
            Day::TwentyEighth => 28,
            Day::TwentyNinth => 29,
            Day::Thirtieth => 30,
            Day::ThirtyFirst => 31,
        }
    }

    /// The day numbered `day`, which must be in 1..=31.
    pub fn new(day: u8) -> (r: Day)
        requires
            1 <= day <= 31,
        ensures
            r.spec_inner() == day,
    {
        match day {
            1 => Day::First,
            2 => Day::Second,
            3 => Day::Third,
            4 => Day::Fourth,
            5 => Day::Fifth,
            6 => Day::Sixth,
            7 => Day::Seventh,
            8 => Day::Eighth,
            9 => Day::Ninth,
            10 => Day::Tenth,
            11 => Day::Eleventh,
            12 => Day::Twelfth,
            13 => Day::Thirteenth,
            14 => Day::Fourteenth,
            15 => Day::Fifteenth,
            16 => Day::Sixteenth,
            17 => Day::Seventeenth,
            18 => Day::Eighteenth,
            19 => Day::Nineteenth,
            20 => Day::Twentieth,
            21 => Day::TwentyFirst,
            22 => Day::TwentySecond,
            23 => Day::TwentyThird,
            24 => Day::TwentyFourth,
            25 => Day::TwentyFifth,
            26 => Day::TwentySixth,
            27 => Day::TwentySeventh,
            28 => Day::TwentyEighth,
            29 => Day::TwentyNinth,
            30 => Day::Thirtieth,
            _ => Day::ThirtyFirst,
        }
    }

    /// The day numbered `day`, clamped to 1..=31: 0 gives the first,
    /// anything above 31 the last.
    pub fn new_saturating(day: u8) -> (r: Day)
        ensures
            r.spec_inner() == saturate_field(day as int, 31),
    {
        if day == 0 {
            Day::First
        } else if day > 31 {
            Day::ThirtyFirst
        } else {
            Day::new(day)
        }
    }

    /// The day numbered `day`, counted round the 31 values: a
    /// multiple of 31 (0 included) gives the last, 31 + 1 the first.
    pub fn new_wrapping(day: u8) -> (r: Day)
        ensures
            r.spec_inner() == wrap_field(day as int, 31),
    {
        let rem: u8 = day % 31;
        if rem == 0 {
            Day::ThirtyFirst
        } else {
            Day::new(rem)
        }
    }

    /// Number in decimal, without padding: `1`.
    pub open spec fn spec_as_str_num(self) -> Seq<char> {
        match self {
            Day::First => "1"@,
            Day::Second => "2"@,
            Day::Third => "3"@,
            Day::Fourth => "4"@,
            Day::Fifth => "5"@,
            Day::Sixth => "6"@,
            Day::Seventh => "7"@,
            Day::Eighth => "8"@,
            Day::Ninth => "9"@,
            Day::Tenth => "10"@,
            Day::Eleventh => "11"@,
            Day::Twelfth => "12"@,
            Day::Thirteenth => "13"@,
            Day::Fourteenth => "14"@,
            Day::Fifteenth => "15"@,
            Day::Sixteenth => "16"@,
            Day::Seventeenth => "17"@,
            Day::Eighteenth => "18"@,
            Day::Nineteenth => "19"@,
            Day::Twentieth => "20"@,
            Day::TwentyFirst => "21"@,
            Day::TwentySecond => "22"@,
            Day::TwentyThird => "23"@,
            Day::TwentyFourth => "24"@,
            Day::TwentyFifth => "25"@,
            Day::TwentySixth => "26"@,
            Day::TwentySeventh => "27"@,
            Day::TwentyEighth => "28"@,
            Day::TwentyNinth => "29"@,
            Day::Thirtieth => "30"@,
            Day::ThirtyFirst => "31"@,
        }
    }

    /// Number in decimal, without padding: `1`.
    pub fn as_str_num(self) -> (r: &'static str)
        ensures
            r@ == self.spec_as_str_num(),
    {
        match self {
            Day::First => "1",
            Day::Second => "2",
            Day::Third => "3",
            Day::Fourth => "4",
            Day::Fifth => "5",
            Day::Sixth => "6",
            Day::Seventh => "7",
            Day::Eighth => "8",
            Day::Ninth => "9",
            Day::Tenth => "10",
            Day::Eleventh => "11",
            Day::Twelfth => "12",
            Day::Thirteenth => "13",
            Day::Fourteenth => "14",
            Day::Fifteenth => "15",
            Day::Sixteenth => "16",
            Day::Seventeenth => "17",
            Day::Eighteenth => "18",
            Day::Nineteenth => "19",
            Day::Twentieth => "20",
            Day::TwentyFirst => "21",
            Day::TwentySecond => "22",
            Day::TwentyThird => "23",
            Day::TwentyFourth => "24",
            Day::TwentyFifth => "25",
            Day::TwentySixth => "26",
            Day::TwentySeventh => "27",
            Day::TwentyEighth => "28",
            Day::TwentyNinth => "29",
            Day::Thirtieth => "30",
            Day::ThirtyFirst => "31",
        }
    }

    /// Ordinal word, capitalised: `First`, `TwentyFirst`.
    pub open spec fn spec_as_str_ordinal(self) -> Seq<char> {
        match self {
            Day::First => "First"@,
            Day::Second => "Second"@,
            Day::Third => "Third"@,
            Day::Fourth => "Fourth"@,
            Day::Fifth => "Fifth"@,
            Day::Sixth => "Sixth"@,
            Day::Seventh => "Seventh"@,
            Day::Eighth => "Eighth"@,
            Day::Ninth => "Ninth"@,
            Day::Tenth => "Tenth"@,
            Day::Eleventh => "Eleventh"@,
            Day::Twelfth => "Twelfth"@,
            Day::Thirteenth => "Thirteenth"@,
            Day::Fourteenth => "Fourteenth"@,
            Day::Fifteenth => "Fifteenth"@,
            Day::Sixteenth => "Sixteenth"@,
            Day::Seventeenth => "Seventeenth"@,
            Day::Eighteenth => "Eighteenth"@,
            Day::Nineteenth => "Nineteenth"@,
            Day::Twentieth => "Twentieth"@,
            Day::TwentyFirst => "TwentyFirst"@,
            Day::TwentySecond => "TwentySecond"@,
            Day::TwentyThird => "TwentyThird"@,
            Day::TwentyFourth => "TwentyFourth"@,
            Day::TwentyFifth => "TwentyFifth"@,
            Day::TwentySixth => "TwentySixth"@,
            Day::TwentySeventh => "TwentySeventh"@,
            Day::TwentyEighth => "TwentyEighth"@,
            Day::TwentyNinth => "TwentyNinth"@,
            Day::Thirtieth => "Thirtieth"@,
            Day::ThirtyFirst => "ThirtyFirst"@,
        }
    }

    /// Ordinal word, capitalised: `First`, `TwentyFirst`.
    pub fn as_str_ordinal(self) -> (r: &'static str)
        ensures
            r@ == self.spec_as_str_ordinal(),
    {
        match self {
            Day::First => "First",
            Day::Second => "Second",
            Day::Third => "Third",
            Day::Fourth => "Fourth",
            Day::Fifth => "Fifth",
            Day::Sixth => "Sixth",
            Day::Seventh => "Seventh",
            Day::Eighth => "Eighth",
            Day::Ninth => "Ninth",
            Day::Tenth => "Tenth",
            Day::Eleventh => "Eleventh",
            Day::Twelfth => "Twelfth",
            Day::Thirteenth => "Thirteenth",
            Day::Fourteenth => "Fourteenth",
            Day::Fifteenth => "Fifteenth",
            Day::Sixteenth => "Sixteenth",
            Day::Seventeenth => "Seventeenth",
            Day::Eighteenth => "Eighteenth",
            Day::Nineteenth => "Nineteenth",
            Day::Twentieth => "Twentieth",
            Day::TwentyFirst => "TwentyFirst",
            Day::TwentySecond => "TwentySecond",
            Day::TwentyThird => "TwentyThird",
            Day::TwentyFourth => "TwentyFourth",
            Day::TwentyFifth => "TwentyFifth",
            Day::TwentySixth => "TwentySixth",
            Day::TwentySeventh => "TwentySeventh",
            Day::TwentyEighth => "TwentyEighth",
            Day::TwentyNinth => "TwentyNinth",
            Day::Thirtieth => "Thirtieth",
            Day::ThirtyFirst => "ThirtyFirst",
        }
    }

    /// Ordinal word in lowercase: `first`, `twentyfirst`.
    pub open spec fn spec_as_str_ordinal_lower(self) -> Seq<char> {
        match self {
            Day::First => "first"@,
            Day::Second => "second"@,
            Day::Third => "third"@,
            Day::Fourth => "fourth"@,
            Day::Fifth => "fifth"@,
            Day::Sixth => "sixth"@,
            Day::Seventh => "seventh"@,
            Day::Eighth => "eighth"@,
            Day::Ninth => "ninth"@,
            Day::Tenth => "tenth"@,
            Day::Eleventh => "eleventh"@,
            Day::Twelfth => "twelfth"@,
            Day::Thirteenth => "thirteenth"@,
            Day::Fourteenth => "fourteenth"@,
            Day::Fifteenth => "fifteenth"@,
            Day::Sixteenth => "sixteenth"@,
            Day::Seventeenth => "seventeenth"@,
            Day::Eighteenth => "eighteenth"@,
            Day::Nineteenth => "nineteenth"@,
            Day::Twentieth => "twentieth"@,
            Day::TwentyFirst => "twentyfirst"@,
            Day::TwentySecond => "twentysecond"@,
            Day::TwentyThird => "twentythird"@,
            Day::TwentyFourth => "twentyfourth"@,
            Day::TwentyFifth => "twentyfifth"@,
            Day::TwentySixth => "twentysixth"@,
            Day::TwentySeventh => "twentyseventh"@,
            Day::TwentyEighth => "twentyeighth"@,
            Day::TwentyNinth => "twentyninth"@,
            Day::Thirtieth => "thirtieth"@,
            Day::ThirtyFirst => "thirtyfirst"@,
        }
    }

    /// Ordinal word in lowercase: `first`, `twentyfirst`.
    pub fn as_str_ordinal_lower(self) -> (r: &'static str)
        ensures
            r@ == self.spec_as_str_ordinal_lower(),
    {
        match self {
            Day::First => "first",
            Day::Second => "second",
            Day::Third => "third",
            Day::Fourth => "fourth",
            Day::Fifth => "fifth",
            Day::Sixth => "sixth",
            Day::Seventh => "seventh",
            Day::Eighth => "eighth",
            Day::Ninth => "ninth",
            Day::Tenth => "tenth",
            Day::Eleventh => "eleventh",
            Day::Twelfth => "twelfth",
            Day::Thirteenth => "thirteenth",
            Day::Fourteenth => "fourteenth",
            Day::Fifteenth => "fifteenth",
            Day::Sixteenth => "sixteenth",
            Day::Seventeenth => "seventeenth",
            Day::Eighteenth => "eighteenth",
            Day::Nineteenth => "nineteenth",
            Day::Twentieth => "twentieth",
            Day::TwentyFirst => "twentyfirst",
            Day::TwentySecond => "twentysecond",
            Day::TwentyThird => "twentythird",
            Day::TwentyFourth => "twentyfourth",
            Day::TwentyFifth => "twentyfifth",
            Day::TwentySixth => "twentysixth",
            Day::TwentySeventh => "twentyseventh",
            Day::TwentyEighth => "twentyeighth",
            Day::TwentyNinth => "twentyninth",
            Day::Thirtieth => "thirtieth",
            Day::ThirtyFirst => "thirtyfirst",
        }
    }

    /// Ordinal word in uppercase: `FIRST`, `TWENTYFIRST`.
    pub open spec fn spec_as_str_ordinal_upper(self) -> Seq<char> {
        match self {
            Day::First => "FIRST"@,
            Day::Second => "SECOND"@,
            Day::Third => "THIRD"@,
            Day::Fourth => "FOURTH"@,
            Day::Fifth => "FIFTH"@,
            Day::Sixth => "SIXTH"@,
            Day::Seventh => "SEVENTH"@,
            Day::Eighth => "EIGHTH"@,
            Day::Ninth => "NINTH"@,
            Day::Tenth => "TENTH"@,
            Day::Eleventh => "ELEVENTH"@,
            Day::Twelfth => "TWELFTH"@,
            Day::Thirteenth => "THIRTEENTH"@,
            Day::Fourteenth => "FOURTEENTH"@,
            Day::Fifteenth => "FIFTEENTH"@,
            Day::Sixteenth => "SIXTEENTH"@,
            Day::Seventeenth => "SEVENTEENTH"@,
            Day::Eighteenth => "EIGHTEENTH"@,
            Day::Nineteenth => "NINETEENTH"@,
            Day::Twentieth => "TWENTIETH"@,
            Day::TwentyFirst => "TWENTYFIRST"@,
            Day::TwentySecond => "TWENTYSECOND"@,
            Day::TwentyThird => "TWENTYTHIRD"@,
            Day::TwentyFourth => "TWENTYFOURTH"@,
            Day::TwentyFifth => "TWENTYFIFTH"@,
            Day::TwentySixth => "TWENTYSIXTH"@,
            Day::TwentySeventh => "TWENTYSEVENTH"@,
            Day::TwentyEighth => "TWENTYEIGHTH"@,
            Day::TwentyNinth => "TWENTYNINTH"@,
            Day::Thirtieth => "THIRTIETH"@,
            Day::ThirtyFirst => "THIRTYFIRST"@,
        }
    }

    /// Ordinal word in uppercase: `FIRST`, `TWENTYFIRST`.
    pub fn as_str_ordinal_upper(self) -> (r: &'static str)
        ensures
            r@ == self.spec_as_str_ordinal_upper(),
    {
        match self {
            Day::First => "FIRST",
            Day::Second => "SECOND",
            Day::Third => "THIRD",
            Day::Fourth => "FOURTH",
            Day::Fifth => "FIFTH",
            Day::Sixth => "SIXTH",
            Day::Seventh => "SEVENTH",
            Day::Eighth => "EIGHTH",
            Day::Ninth => "NINTH",
            Day::Tenth => "TENTH",
            Day::Eleventh => "ELEVENTH",
            Day::Twelfth => "TWELFTH",
            Day::Thirteenth => "THIRTEENTH",
            Day::Fourteenth => "FOURTEENTH",
            Day::Fifteenth => "FIFTEENTH",
            Day::Sixteenth => "SIXTEENTH",
            Day::Seventeenth => "SEVENTEENTH",
            Day::Eighteenth => "EIGHTEENTH",
            Day::Nineteenth => "NINETEENTH",
            Day::Twentieth => "TWENTIETH",
            Day::TwentyFirst => "TWENTYFIRST",
            Day::TwentySecond => "TWENTYSECOND",
            Day::TwentyThird => "TWENTYTHIRD",
            Day::TwentyFourth => "TWENTYFOURTH",
            Day::TwentyFifth => "TWENTYFIFTH",
            Day::TwentySixth => "TWENTYSIXTH",
            Day::TwentySeventh => "TWENTYSEVENTH",
            Day::TwentyEighth => "TWENTYEIGHTH",
            Day::TwentyNinth => "TWENTYNINTH",
            Day::Thirtieth => "THIRTIETH",
            Day::ThirtyFirst => "THIRTYFIRST",
        }
    }

    /// Number with its ordinal suffix: `1st`, `22nd`.
    pub open spec fn spec_as_str_num_ordinal(self) -> Seq<char> {
        match self {
            Day::First => "1st"@,
            Day::Second => "2nd"@,
            Day::Third => "3rd"@,
            Day::Fourth => "4th"@,
            Day::Fifth => "5th"@,
            Day::Sixth => "6th"@,
            Day::Seventh => "7th"@,
            Day::Eighth => "8th"@,
            Day::Ninth => "9th"@,
            Day::Tenth => "10th"@,
            Day::Eleventh => "11th"@,
            Day::Twelfth => "12th"@,
            Day::Thirteenth => "13th"@,
            Day::Fourteenth => "14th"@,
            Day::Fifteenth => "15th"@,
            Day::Sixteenth => "16th"@,
            Day::Seventeenth => "17th"@,
            Day::Eighteenth => "18th"@,
            Day::Nineteenth => "19th"@,
            Day::Twentieth => "20th"@,
            Day::TwentyFirst => "21st"@,
            Day::TwentySecond => "22nd"@,
            Day::TwentyThird => "23rd"@,
            Day::TwentyFourth => "24th"@,
            Day::TwentyFifth => "25th"@,
            Day::TwentySixth => "26th"@,
            Day::TwentySeventh => "27th"@,
            Day::TwentyEighth => "28th"@,
            Day::TwentyNinth => "29th"@,
            Day::Thirtieth => "30th"@,
            Day::ThirtyFirst => "31st"@,
        }
    }

    /// Number with its ordinal suffix: `1st`, `22nd`.
    pub fn as_str_num_ordinal(self) -> (r: &'static str)
        ensures
            r@ == self.spec_as_str_num_ordinal(),
    {
        match self {
            Day::First => "1st",
            Day::Second => "2nd",
            Day::Third => "3rd",
            Day::Fourth => "4th",
            Day::Fifth => "5th",
            Day::Sixth => "6th",
            Day::Seventh => "7th",
            Day::Eighth => "8th",
            Day::Ninth => "9th",
            Day::Tenth => "10th",
            Day::Eleventh => "11th",
            Day::Twelfth => "12th",
            Day::Thirteenth => "13th",
            Day::Fourteenth => "14th",
            Day::Fifteenth => "15th",
            Day::Sixteenth => "16th",
            Day::Seventeenth => "17th",
            Day::Eighteenth => "18th",
            Day::Nineteenth => "19th",
            Day::Twentieth => "20th",
            Day::TwentyFirst => "21st",
            Day::TwentySecond => "22nd",
            Day::TwentyThird => "23rd",
            Day::TwentyFourth => "24th",
            Day::TwentyFifth => "25th",
            Day::TwentySixth => "26th",
            Day::TwentySeventh => "27th",
            Day::TwentyEighth => "28th",
            Day::TwentyNinth => "29th",
            Day::Thirtieth => "30th",
            Day::ThirtyFirst => "31st",
        }
    }

    /// Number with its ordinal suffix in uppercase: `1ST`, `22ND`.
    pub open spec fn spec_as_str_num_ordinal_upper(self) -> Seq<char> {
        match self {
            Day::First => "1ST"@,
            Day::Second => "2ND"@,
            Day::Third => "3RD"@,
            Day::Fourth => "4TH"@,
            Day::Fifth => "5TH"@,
            Day::Sixth => "6TH"@,
            Day::Seventh => "7TH"@,
            Day::Eighth => "8TH"@,
            Day::Ninth => "9TH"@,
            Day::Tenth => "10TH"@,
            Day::Eleventh => "11TH"@,
            Day::Twelfth => "12TH"@,
            Day::Thirteenth => "13TH"@,
            Day::Fourteenth => "14TH"@,
            Day::Fifteenth => "15TH"@,
            Day::Sixteenth => "16TH"@,
            Day::Seventeenth => "17TH"@,
            Day::Eighteenth => "18TH"@,
            Day::Nineteenth => "19TH"@,
            Day::Twentieth => "20TH"@,
            Day::TwentyFirst => "21ST"@,
            Day::TwentySecond => "22ND"@,
            Day::TwentyThird => "23RD"@,
            Day::TwentyFourth => "24TH"@,
            Day::TwentyFifth => "25TH"@,
            Day::TwentySixth => "26TH"@,
            Day::TwentySeventh => "27TH"@,
            Day::TwentyEighth => "28TH"@,
            Day::TwentyNinth => "29TH"@,
            Day::Thirtieth => "30TH"@,
            Day::ThirtyFirst => "31ST"@,
        }
    }

    /// Number with its ordinal suffix in uppercase: `1ST`, `22ND`.
    pub fn as_str_num_ordinal_upper(self) -> (r: &'static str)
        ensures
            r@ == self.spec_as_str_num_ordinal_upper(),
    {
        match self {
            Day::First => "1ST",
            Day::Second => "2ND",
            Day::Third => "3RD",
            Day::Fourth => "4TH",
            Day::Fifth => "5TH",
            Day::Sixth => "6TH",
            Day::Seventh => "7TH",
            Day::Eighth => "8TH",
            Day::Ninth => "9TH",
            Day::Tenth => "10TH",
            Day::Eleventh => "11TH",
            Day::Twelfth => "12TH",
            Day::Thirteenth => "13TH",
            Day::Fourteenth => "14TH",
            Day::Fifteenth => "15TH",
            Day::Sixteenth => "16TH",
            Day::Seventeenth => "17TH",
            Day::Eighteenth => "18TH",
            Day::Nineteenth => "19TH",
            Day::Twentieth => "20TH",
            Day::TwentyFirst => "21ST",
            Day::TwentySecond => "22ND",
            Day::TwentyThird => "23RD",
            Day::TwentyFourth => "24TH",
            Day::TwentyFifth => "25TH",
            Day::TwentySixth => "26TH",
            Day::TwentySeventh => "27TH",
            Day::TwentyEighth => "28TH",
            Day::TwentyNinth => "29TH",
            Day::Thirtieth => "30TH",
            Day::ThirtyFirst => "31ST",
        }
    }

    /// `b` is one of the forms this day is parsed from: its number, its
    /// number padded with a leading `0` (days 1 to 9), its number with its
    /// ordinal suffix (`3rd`, not `03rd`), or its ordinal word (`third`); the
    /// letters in any ASCII case.
    pub open spec fn is_token(self, b: Seq<u8>) -> bool {
        ||| full_match(b, self.spec_as_str_num())
        ||| padded_match(b, self.spec_as_str_num())
        ||| full_match(b, self.spec_as_str_num_ordinal())
        ||| full_match(b, self.spec_as_str_ordinal_lower())
    }

    /// What parsing `b` gives: the first day (in order) of which `b` is
    /// a form, or `None` when `b` is no form of any.
    pub open spec fn spec_parse(b: Seq<u8>) -> Option<Day> {
        if exists|k: Day| k.is_token(b) {
            Some(choose|v: Day| Day::first_token(v, b))
        } else {
            None
        }
    }

    /// `v` is a form of `b`, and no earlier day is.
    pub open spec fn first_token(v: Day, b: Seq<u8>) -> bool {
        v.is_token(b) && forall|k: Day| k.spec_inner() < v.spec_inner() ==> !#[trigger] k.is_token(b)
    }

    /// Whether `b` is one of the forms of this day.
    fn matches_token(self, b: &[u8]) -> (r: bool)
        ensures
            r == self.is_token(b@),
    {
        eq_ignore_case(b, self.as_str_num()) || eq_padded(b, self.as_str_num())
            || eq_ignore_case(b, self.as_str_num_ordinal()) || eq_ignore_case(
            b,
            self.as_str_ordinal_lower(),
        )
    }

    /// Parse any form of a day listed in `is_token`, ignoring ASCII case.
    pub fn from_bytes(bytes: &[u8]) -> (r: Option<Day>)
        ensures
            r == Day::spec_parse(bytes@),
    {
        let mut n: u8 = 1;
        while n <= 31
            invariant
                1 <= n <= 32,
                forall|k: Day| k.spec_inner() < n ==> !#[trigger] k.is_token(bytes@),
            decreases 32 - n,
        {
            let v = Day::new(n);
            if v.matches_token(bytes) {
                proof {
                    assert(Day::first_token(v, bytes@));
                    assert forall|w: Day| Day::first_token(w, bytes@) implies w == v by {
                        assert(w.spec_inner() == v.spec_inner());
                    }
                }
                return Some(v);
            }
            n = n + 1;
        }
        assert forall|k: Day| !#[trigger] k.is_token(bytes@) by {
            assert(k.spec_inner() < 32);
        }
        None
    }

    /// Parse any form of a day listed in `is_token`, ignoring ASCII case.
    pub fn from_str(s: &str) -> (r: Option<Day>)
        ensures
            r == Day::spec_parse(s.spec_bytes()),
    {
        Day::from_bytes(s.as_bytes())
    }

    /// No form of a day is longer than two bytes and starts with `0`: a
    /// zero-padded number with an ordinal suffix, such as `03rd`, names no
    /// day.
    pub proof fn lemma_no_padded_ordinal(b: Seq<u8>)
        requires
            b.len() > 2,
            b[0] == 48,
        ensures
            Day::spec_parse(b) is None,
    {
        assert forall|k: Day| !#[trigger] k.is_token(b) by {
            match k {
                Day::First => {
                    reveal_strlit("1");
                    reveal_strlit("1st");
                    reveal_strlit("first");
                    assert(lower_chars(b.subrange(0, b.len() as int))[0] == '0');
                },
                Day::Second => {
                    reveal_strlit("2");
                    reveal_strlit("2nd");
                    reveal_strlit("second");
                    assert(lower_chars(b.subrange(0, b.len() as int))[0] == '0');
                },
                Day::Third => {
                    reveal_strlit("3");
                    reveal_strlit("3rd");
                    reveal_strlit("third");
                    assert(lower_chars(b.subrange(0, b.len() as int))[0] == '0');
                },
                Day::Fourth => {
                    reveal_strlit("4");
                    reveal_strlit("4th");
                    reveal_strlit("fourth");
                    assert(lower_chars(b.subrange(0, b.len() as int))[0] == '0');
                },
                Day::Fifth => {
                    reveal_strlit("5");
                    reveal_strlit("5th");
                    reveal_strlit("fifth");
                    assert(lower_chars(b.subrange(0, b.len() as int))[0] == '0');
                },
                Day::Sixth => {
                    reveal_strlit("6");
                    reveal_strlit("6th");
                    reveal_strlit("sixth");
                    assert(lower_chars(b.subrange(0, b.len() as int))[0] == '0');
                },
                Day::Seventh => {
                    reveal_strlit("7");
                    reveal_strlit("7th");
                    reveal_strlit("seventh");
                    assert(lower_chars(b.subrange(0, b.len() as int))[0] == '0');
                },
                Day::Eighth => {
                    reveal_strlit("8");
                    reveal_strlit("8th");
                    reveal_strlit("eighth");
                    assert(lower_chars(b.subrange(0, b.len() as int))[0] == '0');
                },
                Day::Ninth => {
                    reveal_strlit("9");
                    reveal_strlit("9th");
                    reveal_strlit("ninth");
                    assert(lower_chars(b.subrange(0, b.len() as int))[0] == '0');
                },
                Day::Tenth => {
                    reveal_strlit("10");
                    reveal_strlit("10th");
                    reveal_strlit("tenth");
                    assert(lower_chars(b.subrange(0, b.len() as int))[0] == '0');
                },
                Day::Eleventh => {
                    reveal_strlit("11");
                    reveal_strlit("11th");
                    reveal_strlit("eleventh");
                    assert(lower_chars(b.subrange(0, b.len() as int))[0] == '0');
                },
                Day::Twelfth => {
                    reveal_strlit("12");
                    reveal_strlit("12th");
                    reveal_strlit("twelfth");
                    assert(lower_chars(b.subrange(0, b.len() as int))[0] == '0');
                },
                Day::Thirteenth => {
                    reveal_strlit("13");
                    reveal_strlit("13th");
                    reveal_strlit("thirteenth");
                    assert(lower_chars(b.subrange(0, b.len() as int))[0] == '0');
                },
                Day::Fourteenth => {
                    reveal_strlit("14");
                    reveal_strlit("14th");
                    reveal_strlit("fourteenth");
                    assert(lower_chars(b.subrange(0, b.len() as int))[0] == '0');
                },
                Day::Fifteenth => {
                    reveal_strlit("15");
                    reveal_strlit("15th");
                    reveal_strlit("fifteenth");
                    assert(lower_chars(b.subrange(0, b.len() as int))[0] == '0');
                },
                Day::Sixteenth => {
                    reveal_strlit("16");
                    reveal_strlit("16th");
                    reveal_strlit("sixteenth");
                    assert(lower_chars(b.subrange(0, b.len() as int))[0] == '0');
                },
                Day::Seventeenth => {
                    reveal_strlit("17");
                    reveal_strlit("17th");
                    reveal_strlit("seventeenth");
                    assert(lower_chars(b.subrange(0, b.len() as int))[0] == '0');
                },
                Day::Eighteenth => {
                    reveal_strlit("18");
                    reveal_strlit("18th");
                    reveal_strlit("eighteenth");
                    assert(lower_chars(b.subrange(0, b.len() as int))[0] == '0');
                },
                Day::Nineteenth => {
                    reveal_strlit("19");
                    reveal_strlit("19th");
                    reveal_strlit("nineteenth");
                    assert(lower_chars(b.subrange(0, b.len() as int))[0] == '0');
                },
                Day::Twentieth => {
                    reveal_strlit("20");
                    reveal_strlit("20th");
                    reveal_strlit("twentieth");
                    assert(lower_chars(b.subrange(0, b.len() as int))[0] == '0');
                },
                Day::TwentyFirst => {
                    reveal_strlit("21");
                    reveal_strlit("21st");
                    reveal_strlit("twentyfirst");
                    assert(lower_chars(b.subrange(0, b.len() as int))[0] == '0');
                },
                Day::TwentySecond => {
                    reveal_strlit("22");
                    reveal_strlit("22nd");
                    reveal_strlit("twentysecond");
                    assert(lower_chars(b.subrange(0, b.len() as int))[0] == '0');
                },
                Day::TwentyThird => {
                    reveal_strlit("23");
                    reveal_strlit("23rd");
                    reveal_strlit("twentythird");
                    assert(lower_chars(b.subrange(0, b.len() as int))[0] == '0');
                },
                Day::TwentyFourth => {
                    reveal_strlit("24");
                    reveal_strlit("24th");
                    reveal_strlit("twentyfourth");
                    assert(lower_chars(b.subrange(0, b.len() as int))[0] == '0');
                },
                Day::TwentyFifth => {
                    reveal_strlit("25");
                    reveal_strlit("25th");
                    reveal_strlit("twentyfifth");
                    assert(lower_chars(b.subrange(0, b.len() as int))[0] == '0');
                },
                Day::TwentySixth => {
                    reveal_strlit("26");
                    reveal_strlit("26th");
                    reveal_strlit("twentysixth");
                    assert(lower_chars(b.subrange(0, b.len() as int))[0] == '0');
                },
                Day::TwentySeventh => {
                    reveal_strlit("27");
                    reveal_strlit("27th");
                    reveal_strlit("twentyseventh");
                    assert(lower_chars(b.subrange(0, b.len() as int))[0] == '0');
                },
                Day::TwentyEighth => {
                    reveal_strlit("28");
                    reveal_strlit("28th");
                    reveal_strlit("twentyeighth");
                    assert(lower_chars(b.subrange(0, b.len() as int))[0] == '0');
                },
                Day::TwentyNinth => {
                    reveal_strlit("29");
                    reveal_strlit("29th");
                    reveal_strlit("twentyninth");
                    assert(lower_chars(b.subrange(0, b.len() as int))[0] == '0');
                },
                Day::Thirtieth => {
                    reveal_strlit("30");
                    reveal_strlit("30th");
                    reveal_strlit("thirtieth");
                    assert(lower_chars(b.subrange(0, b.len() as int))[0] == '0');
                },
                Day::ThirtyFirst => {
                    reveal_strlit("31");
                    reveal_strlit("31st");
                    reveal_strlit("thirtyfirst");
                    assert(lower_chars(b.subrange(0, b.len() as int))[0] == '0');
                },
            }
        }
    }
}

} // verus!
