//! Days of the week.
use vstd::prelude::*;
use crate::civil::{saturate_field, wrap_field};
use crate::text::{eq_ignore_case, full_match};
use vstd::string::StringSliceAdditionalSpecFns;

verus! {

/// A day of the week, numbered 1 (Sunday) to 7 (Saturday).
#[derive(Copy, Clone, Debug, Default, PartialEq, Eq, Structural, PartialOrd, Ord, Hash)]
pub enum Weekday {
    #[default]
    Sunday,
    Monday,
    Tuesday,
    Wednesday,
    Thursday,
    Friday,
    Saturday,
}

impl Weekday {
    /// The number of this weekday, 1..=7.
    pub open spec fn spec_inner(self) -> u8 {
        match self {
            Weekday::Sunday => 1,
            Weekday::Monday => 2,
            Weekday::Tuesday => 3,
            Weekday::Wednesday => 4,
            Weekday::Thursday => 5,
            Weekday::Friday => 6,
            Weekday::Saturday => 7,
        }
    }

    /// The number of this weekday, 1..=7.
    #[verifier::when_used_as_spec(spec_inner)]
    pub fn inner(self) -> (r: u8)
        ensures
            r == self.spec_inner(),
            1 <= r <= 7,
    {
        match self {
            Weekday::Sunday => 1,
            Weekday::Monday => 2,
            Weekday::Tuesday => 3,
            Weekday::Wednesday => 4,
            Weekday::Thursday => 5,
            Weekday::Friday => 6,
            Weekday::Saturday => 7,
        }
    }

    /// The weekday numbered `weekday`, which must be in 1..=7.
    pub fn new(weekday: u8) -> (r: Weekday)
        requires
            1 <= weekday <= 7,
        ensures
            r.spec_inner() == weekday,
    {
        match weekday {
            1 => Weekday::Sunday,
            2 => Weekday::Monday,
            3 => Weekday::Tuesday,
            4 => Weekday::Wednesday,
            5 => Weekday::Thursday,
            6 => Weekday::Friday,
            _ => Weekday::Saturday,
        }
    }

    /// Same as `new`: the range of `weekday` is a precondition, proved at
    /// every call, so nothing is left to check at run time.
    pub fn new_unchecked(weekday: u8) -> (r: Weekday)
        requires
            1 <= weekday <= 7,
        ensures
            r.spec_inner() == weekday,
    {
        Weekday::new(weekday)
    }

    /// The weekday numbered `weekday`, clamped to 1..=7: 0 gives the first,
    /// anything above 7 the last.
    pub fn new_saturating(weekday: u8) -> (r: Weekday)
        ensures
            r.spec_inner() == saturate_field(weekday as int, 7),
    {
        if weekday == 0 {
            Weekday::Sunday
        } else if weekday > 7 {
            Weekday::Saturday
        } else {
            Weekday::new(weekday)
        }
    }

    /// The weekday numbered `weekday`, counted round the 7 values: a
    /// multiple of 7 (0 included) gives the last, 7 + 1 the first.
    pub fn new_wrapping(weekday: u8) -> (r: Weekday)
        ensures
            r.spec_inner() == wrap_field(weekday as int, 7),
    {
        let rem: u8 = weekday % 7;
        if rem == 0 {
            Weekday::Saturday
        } else {
            Weekday::new(rem)
        }
    }

    /// Full English name, capitalised: `Sunday`.
    pub open spec fn spec_as_str(self) -> Seq<char> {
        match self {
            Weekday::Sunday => "Sunday"@,
            Weekday::Monday => "Monday"@,
            Weekday::Tuesday => "Tuesday"@,
            Weekday::Wednesday => "Wednesday"@,
            Weekday::Thursday => "Thursday"@,
            Weekday::Friday => "Friday"@,
            Weekday::Saturday => "Saturday"@,
        }
    }

    /// Full English name, capitalised: `Sunday`.
    pub fn as_str(self) -> (r: &'static str)
        ensures
            r@ == self.spec_as_str(),
    {
        match self {
            Weekday::Sunday => "Sunday",
            Weekday::Monday => "Monday",
            Weekday::Tuesday => "Tuesday",
            Weekday::Wednesday => "Wednesday",
            Weekday::Thursday => "Thursday",
            Weekday::Friday => "Friday",
            Weekday::Saturday => "Saturday",
        }
    }

    /// Full English name in lowercase: `sunday`.
    pub open spec fn spec_as_str_lower(self) -> Seq<char> {
        match self {
            Weekday::Sunday => "sunday"@,
            Weekday::Monday => "monday"@,
            Weekday::Tuesday => "tuesday"@,
            Weekday::Wednesday => "wednesday"@,
            Weekday::Thursday => "thursday"@,
            Weekday::Friday => "friday"@,
            Weekday::Saturday => "saturday"@,
        }
    }

    /// Full English name in lowercase: `sunday`.
    pub fn as_str_lower(self) -> (r: &'static str)
        ensures
            r@ == self.spec_as_str_lower(),
    {
        match self {
            Weekday::Sunday => "sunday",
            Weekday::Monday => "monday",
            Weekday::Tuesday => "tuesday",
            Weekday::Wednesday => "wednesday",
            Weekday::Thursday => "thursday",
            Weekday::Friday => "friday",
            Weekday::Saturday => "saturday",
        }
    }

    /// Full English name in uppercase: `SUNDAY`.
    pub open spec fn spec_as_str_upper(self) -> Seq<char> {
        match self {
            Weekday::Sunday => "SUNDAY"@,
            Weekday::Monday => "MONDAY"@,
            Weekday::Tuesday => "TUESDAY"@,
            Weekday::Wednesday => "WEDNESDAY"@,
            Weekday::Thursday => "THURSDAY"@,
            Weekday::Friday => "FRIDAY"@,
            Weekday::Saturday => "SATURDAY"@,
        }
    }

    /// Full English name in uppercase: `SUNDAY`.
    pub fn as_str_upper(self) -> (r: &'static str)
        ensures
            r@ == self.spec_as_str_upper(),
    {
        match self {
            Weekday::Sunday => "SUNDAY",
            Weekday::Monday => "MONDAY",
            Weekday::Tuesday => "TUESDAY",
            Weekday::Wednesday => "WEDNESDAY",
            Weekday::Thursday => "THURSDAY",
            Weekday::Friday => "FRIDAY",
            Weekday::Saturday => "SATURDAY",
        }
    }

    /// Three-letter name, capitalised: `Sun`.
    pub open spec fn spec_as_str_short(self) -> Seq<char> {
        match self {
            Weekday::Sunday => "Sun"@,
            Weekday::Monday => "Mon"@,
            Weekday::Tuesday => "Tue"@,
            Weekday::Wednesday => "Wed"@,
            Weekday::Thursday => "Thu"@,
            Weekday::Friday => "Fri"@,
            Weekday::Saturday => "Sat"@,
        }
    }

    /// Three-letter name, capitalised: `Sun`.
    pub fn as_str_short(self) -> (r: &'static str)
        ensures
            r@ == self.spec_as_str_short(),
    {
        match self {
            Weekday::Sunday => "Sun",
            Weekday::Monday => "Mon",
            Weekday::Tuesday => "Tue",
            Weekday::Wednesday => "Wed",
            Weekday::Thursday => "Thu",
            Weekday::Friday => "Fri",
            Weekday::Saturday => "Sat",
        }
    }

    /// Three-letter name in lowercase: `sun`.
    pub open spec fn spec_as_str_short_lower(self) -> Seq<char> {
        match self {
            Weekday::Sunday => "sun"@,
            Weekday::Monday => "mon"@,
            Weekday::Tuesday => "tue"@,
            Weekday::Wednesday => "wed"@,
            Weekday::Thursday => "thu"@,
            Weekday::Friday => "fri"@,
            Weekday::Saturday => "sat"@,
        }
    }

    /// Three-letter name in lowercase: `sun`.
    pub fn as_str_short_lower(self) -> (r: &'static str)
        ensures
            r@ == self.spec_as_str_short_lower(),
    {
        match self {
            Weekday::Sunday => "sun",
            Weekday::Monday => "mon",
            Weekday::Tuesday => "tue",
            Weekday::Wednesday => "wed",
            Weekday::Thursday => "thu",
            Weekday::Friday => "fri",
            Weekday::Saturday => "sat",
        }
    }

    /// Three-letter name in uppercase: `SUN`.
    pub open spec fn spec_as_str_short_upper(self) -> Seq<char> {
        match self {
            Weekday::Sunday => "SUN"@,
            Weekday::Monday => "MON"@,
            Weekday::Tuesday => "TUE"@,
            Weekday::Wednesday => "WED"@,
            Weekday::Thursday => "THU"@,
            Weekday::Friday => "FRI"@,
            Weekday::Saturday => "SAT"@,
        }
    }

    /// Three-letter name in uppercase: `SUN`.
    pub fn as_str_short_upper(self) -> (r: &'static str)
        ensures
            r@ == self.spec_as_str_short_upper(),
    {
        match self {
            Weekday::Sunday => "SUN",
            Weekday::Monday => "MON",
            Weekday::Tuesday => "TUE",
            Weekday::Wednesday => "WED",
            Weekday::Thursday => "THU",
            Weekday::Friday => "FRI",
            Weekday::Saturday => "SAT",
        }
    }

    /// Japanese name.
    pub open spec fn spec_as_str_jp(self) -> Seq<char> {
        match self {
            Weekday::Sunday => "日曜日"@,
            Weekday::Monday => "月曜日"@,
            Weekday::Tuesday => "火曜日"@,
            Weekday::Wednesday => "水曜日"@,
            Weekday::Thursday => "木曜日"@,
            Weekday::Friday => "金曜日"@,
            Weekday::Saturday => "土曜日"@,
        }
    }

    /// Japanese name.
    pub fn as_str_jp(self) -> (r: &'static str)
        ensures
            r@ == self.spec_as_str_jp(),
    {
        match self {
            Weekday::Sunday => "日曜日",
            Weekday::Monday => "月曜日",
            Weekday::Tuesday => "火曜日",
            Weekday::Wednesday => "水曜日",
            Weekday::Thursday => "木曜日",
            Weekday::Friday => "金曜日",
            Weekday::Saturday => "土曜日",
        }
    }

    /// `b` is one of the forms this weekday is parsed from, in any ASCII
    /// case: its full or three-letter name, or `tues`, `thur` or `thurs`.
    pub open spec fn is_token(self, b: Seq<u8>) -> bool {
        ||| full_match(b, self.spec_as_str_lower())
        ||| full_match(b, self.spec_as_str_short_lower())
        ||| self == Weekday::Tuesday && full_match(b, "tues"@)
        ||| self == Weekday::Thursday && (full_match(b, "thur"@) || full_match(b, "thurs"@))
    }

    /// What parsing `b` gives: the first weekday (in order) of which `b` is
    /// a form, or `None` when `b` is no form of any.
    pub open spec fn spec_parse(b: Seq<u8>) -> Option<Weekday> {
        if exists|k: Weekday| k.is_token(b) {
            Some(choose|v: Weekday| Weekday::first_token(v, b))
        } else {
            None
        }
    }

    /// `v` is a form of `b`, and no earlier weekday is.
    pub open spec fn first_token(v: Weekday, b: Seq<u8>) -> bool {
        v.is_token(b) && forall|k: Weekday| k.spec_inner() < v.spec_inner() ==> !#[trigger] k.is_token(b)
    }

    /// Whether `b` is one of the forms of this weekday.
    fn matches_token(self, b: &[u8]) -> (r: bool)
        ensures
            r == self.is_token(b@),
    {
        if eq_ignore_case(b, self.as_str_lower()) || eq_ignore_case(b, self.as_str_short_lower()) {
            return true;
        }
        match self {
            Weekday::Tuesday => eq_ignore_case(b, "tues"),
            Weekday::Thursday => eq_ignore_case(b, "thur") || eq_ignore_case(b, "thurs"),
            _ => false,
        }
    }

    /// Parse any form of a weekday listed in `is_token`, ignoring ASCII case.
    pub fn from_bytes(bytes: &[u8]) -> (r: Option<Weekday>)
        ensures
            r == Weekday::spec_parse(bytes@),
    {
        let mut n: u8 = 1;
        while n <= 7
            invariant
                1 <= n <= 8,
                forall|k: Weekday| k.spec_inner() < n ==> !#[trigger] k.is_token(bytes@),
            decreases 8 - n,
        {
            let v = Weekday::new(n);
            if v.matches_token(bytes) {
                proof {
                    assert(Weekday::first_token(v, bytes@));
                    assert forall|w: Weekday| Weekday::first_token(w, bytes@) implies w == v by {
                        assert(w.spec_inner() == v.spec_inner());
                    }
                }
                return Some(v);
            }
            n = n + 1;
        }
        assert forall|k: Weekday| !#[trigger] k.is_token(bytes@) by {
            assert(k.spec_inner() < 8);
        }
        None
    }

    /// Parse any form of a weekday listed in `is_token`, ignoring ASCII case.
    pub fn from_str(s: &str) -> (r: Option<Weekday>)
        ensures
            r == Weekday::spec_parse(s.spec_bytes()),
    {
        Weekday::from_bytes(s.as_bytes())
    }
}

} // verus!
