//! Calendar dates and their conversions to day counts, UNIX time and weekdays.
use vstd::prelude::*;
use crate::civil::{
    civil_from_days, days_from_civil, floor_div, floor_mod, is_valid_civil,
    lemma_civil_from_days_valid, lemma_civil_round_trip, sakamoto, sakamoto_offset, saturate_field,
    wrap_field,
};
use crate::day::Day;
use crate::month::Month;
use crate::parse::{parse_date, parse_date_spec};
use vstd::string::StringSliceAdditionalSpecFns;
use crate::weekday::Weekday;
use crate::year::Year;

verus! {

/// Seconds in a day.
pub const SECONDS_PER_DAY: i128 = 86400;

/// `y` clamped to the range of `Year`.
pub open spec fn clamp_year(y: int) -> int {
    if y > i16::MAX {
        i16::MAX as int
    } else if y < i16::MIN {
        i16::MIN as int
    } else {
        y
    }
}

/// The (year, month, day) that `Date::from_days(z)` holds: the civil date
/// `z` days after 1970-01-01, with the year clamped to the range of `Year`.
pub open spec fn date_of_days(z: int) -> (int, int, int) {
    let c = civil_from_days(z);
    (clamp_year(c.0), c.1, c.2)
}

/// A calendar date: a year, a month and a day of the month.
///
/// Month and day are each in range, but a `Date` may name a day that its
/// month lacks (February 30th): only `Date::is_valid` promises more.
/// Dates order by year, then month, then day.
#[derive(Copy, Clone, Debug, Default, PartialEq, Eq, Structural, PartialOrd, Ord, Hash)]
pub struct Date {
    year: Year,
    month: Month,
    day: Day,
}

impl Date {
    /// The year; read it with `year()`.
    pub closed spec fn spec_year(self) -> Year {
        self.year
    }

    /// The month; read it with `month()`.
    pub closed spec fn spec_month(self) -> Month {
        self.month
    }

    /// The day of the month; read it with `day()`.
    pub closed spec fn spec_day(self) -> Day {
        self.day
    }

    /// The date as numbers: (year, month 1..=12, day 1..=31).
    pub open spec fn civil(self) -> (int, int, int) {
        (
            self.spec_year().0 as int,
            self.spec_month().spec_inner() as int,
            self.spec_day().spec_inner() as int,
        )
    }

    /// The day exists in its month and year.
    pub open spec fn is_valid(self) -> bool {
        is_valid_civil(self.civil().0, self.civil().1, self.civil().2)
    }

    /// Days from 1970-01-01 to this date.
    pub open spec fn spec_days(self) -> int {
        days_from_civil(self.civil().0, self.civil().1, self.civil().2)
    }

    /// Seconds from 1970-01-01 00:00 to the start of this date.
    pub open spec fn spec_unix(self) -> int {
        self.spec_days() * (SECONDS_PER_DAY as int)
    }

    /// A date is fixed by its year, month and day.
    pub proof fn lemma_civil_determines(a: Date, b: Date)
        requires
            a.civil() == b.civil(),
        ensures
            a == b,
    {
        assert(a.month == b.month);
        assert(a.day == b.day);
    }

    /// The date `year`-`month`-`day`. `month` must be in 1..=12 and `day` in
    /// 1..=31; the day is not checked against the month.
    pub fn new(year: i16, month: u8, day: u8) -> (r: Date)
        requires
            1 <= month <= 12,
            1 <= day <= 31,
        ensures
            r.civil() == (year as int, month as int, day as int),
    {
        Date { year: Year(year), month: Month::new(month), day: Day::new(day) }
    }

    /// Like `new`, with the month clamped to 1..=12 and the day to 1..=31.
    pub fn new_saturating(year: i16, month: u8, day: u8) -> (r: Date)
        ensures
            r.civil() == (year as int, saturate_field(month as int, 12), saturate_field(day as int, 31)),
    {
        Date { year: Year(year), month: Month::new_saturating(month), day: Day::new_saturating(day) }
    }

    /// Like `new`, with the month counted round 1..=12 and the day round
    /// 1..=31 (0 gives December and the 31st).
    pub fn new_wrapping(year: i16, month: u8, day: u8) -> (r: Date)
        ensures
            r.civil() == (year as int, wrap_field(month as int, 12), wrap_field(day as int, 31)),
    {
        Date { year: Year(year), month: Month::new_wrapping(month), day: Day::new_wrapping(day) }
    }

    /// The date made of `year`, `month` and `day`.
    pub fn new_typed(year: Year, month: Month, day: Day) -> (r: Date)
        ensures
            r.spec_year() == year,
            r.spec_month() == month,
            r.spec_day() == day,
    {
        Date { year, month, day }
    }

    /// The year.
    #[verifier::when_used_as_spec(spec_year)]
    pub fn year(self) -> (r: Year)
        ensures
            r == self.spec_year(),
    {
        self.year
    }

    /// The month.
    #[verifier::when_used_as_spec(spec_month)]
    pub fn month(self) -> (r: Month)
        ensures
            r == self.spec_month(),
    {
        self.month
    }

    /// The day of the month.
    #[verifier::when_used_as_spec(spec_day)]
    pub fn day(self) -> (r: Day)
        ensures
            r == self.spec_day(),
    {
        self.day
    }

    /// The date as numbers: (year, month, day).
    pub fn inner(self) -> (r: (i16, u8, u8))
        ensures
            r.0 == self.spec_year().0,
            r.1 == self.spec_month().spec_inner(),
            r.2 == self.spec_day().spec_inner(),
    {
        (self.year.0, self.month.inner(), self.day.inner())
    }

    /// The date as its parts: (year, month, day).
    pub fn inner_typed(self) -> (r: (Year, Month, Day))
        ensures
            r == (self.spec_year(), self.spec_month(), self.spec_day()),
    {
        (self.year, self.month, self.day)
    }

    /// The day of the week of this date.
    pub fn weekday(self) -> (r: Weekday)
        ensures
            r.spec_inner() == sakamoto(self.civil().0, self.civil().1, self.civil().2) + 1,
    {
        Date::weekday_raw(self.year.0, self.month.inner(), self.day.inner())
    }

    /// The day of the week of `year`-`month`-`day`, by Sakamoto's method,
    /// for any year and any day number. `month` must be in 1..=12.
    pub fn weekday_raw(year: i16, month: u8, day: u8) -> (r: Weekday)
        requires
            1 <= month <= 12,
        ensures
            r.spec_inner() == sakamoto(year as int, month as int, day as int) + 1,
    {
        let offsets: [i128; 12] = [0, 3, 2, 5, 0, 3, 5, 1, 4, 6, 2, 4];
        let y: i128 = if month < 3 {
            year as i128 - 1
        } else {
            year as i128
        };
        let offset = offsets[(month - 1) as usize];
        assert(offset == sakamoto_offset(month as int));
        let sum = y + floor_div(y, 4) - floor_div(y, 100) + floor_div(y, 400) + offset + day as i128;
        let w = floor_mod(sum, 7);
        Weekday::new((w + 1) as u8)
    }

    /// Days from 1970-01-01 to this date, negative before it.
    pub fn as_days(self) -> (r: i128)
        ensures
            r == self.spec_days(),
    {
        let y = self.year.0 as i128;
        let m = self.month.inner() as i128;
        let d = self.day.inner() as i128;
        let yp = if m <= 2 {
            y - 1
        } else {
            y
        };
        let era = floor_div(yp, 400);
        let yoe = yp - era * 400;
        let mp = if m > 2 {
            m - 3
        } else {
            m + 9
        };
        let doy = (153 * mp + 2) / 5 + d - 1;
        let doe = yoe * 365 + yoe / 4 - yoe / 100 + doy;
        era * 146097 + doe - 719468
    }

    /// The date `days` days after 1970-01-01 (before it when negative).
    /// Where the year falls outside -32768..=32767 it is clamped.
    pub fn from_days(days: i128) -> (r: Date)
        ensures
            r.civil() == date_of_days(days as int),
            r.is_valid() || clamp_year(civil_from_days(days as int).0) != civil_from_days(
                days as int,
            ).0,
    {
        proof {
            lemma_civil_from_days_valid(days as int);
        }
        let q = days / 146097;
        let rem = days % 146097;
        let t = rem + 719468;
        let era = q + t / 146097;
        let doe = t % 146097;
        assert(era == (days + 719468) / 146097 && doe == (days + 719468) - era * 146097) by {
            vstd::arithmetic::div_mod::lemma_fundamental_div_mod_converse(
                days + 719468,
                146097,
                era as int,
                doe as int,
            );
        }
        let yoe = (doe - doe / 1460 + doe / 36524 - doe / 146096) / 365;
        let y = yoe + era * 400;
        let doy = doe - (365 * yoe + yoe / 4 - yoe / 100);
        let mp = (5 * doy + 2) / 153;
        let d = doy - (153 * mp + 2) / 5 + 1;
        let m = if mp < 10 {
            mp + 3
        } else {
            mp - 9
        };
        let y = if m <= 2 {
            y + 1
        } else {
            y
        };
        let year = if y > i16::MAX as i128 {
            i16::MAX
        } else if y < i16::MIN as i128 {
            i16::MIN
        } else {
            y as i16
        };
        Date { year: Year(year), month: Month::new(m as u8), day: Day::new(d as u8) }
    }

    /// Read a date out of free text. An ISO-like `2010-12-25` (any one
    /// separator character, one- or two-digit month and day) anywhere in the
    /// text wins; otherwise the year (four digits), month (three-letter
    /// abbreviation, any case) and day (`25`, `05`, `25th`) are looked for
    /// independently, in any order: `"dec 25 2010"`, `"25th 2010 Dec"`.
    /// The exact rules are in the `parse` module.
    pub fn from_str(s: &str) -> (r: Option<Date>)
        ensures
            match parse_date_spec(s.spec_bytes()) {
                Some(t) => r matches Some(d) && d.year().0 == t.0 && d.month() == t.1 && d.day()
                    == t.2,
                None => r is None,
            },
    {
        parse_date(s.as_bytes())
    }

    /// Seconds from 1970-01-01 00:00 UTC to the start of this date.
    pub fn as_unix(self) -> (r: i128)
        ensures
            r == self.spec_unix(),
    {
        self.as_days() * SECONDS_PER_DAY
    }

    /// The date, in UTC, of the instant `seconds_relative_to_unix_epoch`
    /// seconds after 1970-01-01 00:00. A time before the epoch falls on the
    /// day it lies in: -1 is 1969-12-31.
    pub fn from_unix(seconds_relative_to_unix_epoch: i128) -> (r: Date)
        ensures
            r.civil() == date_of_days(seconds_relative_to_unix_epoch as int / (SECONDS_PER_DAY as int)),
    {
        Date::from_days(floor_div(seconds_relative_to_unix_epoch, SECONDS_PER_DAY))
    }
}

/// Converting a valid date to its day count and back, or to UNIX seconds
/// and back, gives the same date.
pub proof fn lemma_date_round_trip(date: Date, r: Date)
    requires
        date.is_valid(),
        r.civil() == date_of_days(date.spec_days()) || r.civil() == date_of_days(
            date.spec_unix() / (SECONDS_PER_DAY as int),
        ),
    ensures
        r == date,
{
    lemma_civil_round_trip(date.civil().0, date.civil().1, date.civil().2);
    assert(date.spec_unix() / (SECONDS_PER_DAY as int) == date.spec_days());
    Date::lemma_civil_determines(r, date);
}

} // verus!
