//! The mathematical model of the proleptic Gregorian calendar.
//!
//! Days are counted from 1970-01-01 (day 0). All divisions in this module
//! are on `int`, where `/` and `%` by a positive constant round toward
//! negative infinity, which is exactly what the calendar arithmetic needs
//! for years before the epoch.
use vstd::prelude::*;
use vstd::arithmetic::div_mod::{
    lemma_div_is_ordered_by_denominator, lemma_div_pos_is_pos, lemma_fundamental_div_mod,
    lemma_fundamental_div_mod_converse, lemma_mod_multiples_vanish,
};

verus! {

/// A field value clamped to `1..=max`: 0 gives 1, anything above `max` gives `max`.
pub open spec fn saturate_field(v: int, max: int) -> int {
    if v < 1 {
        1
    } else if v > max {
        max
    } else {
        v
    }
}

/// A field value counted round `1..=max`: multiples of `max`, 0 included,
/// give `max`.
pub open spec fn wrap_field(v: int, max: int) -> int {
    if v % max == 0 {
        max
    } else {
        v % max
    }
}

/// Gregorian leap-year rule, for any integer year.
pub open spec fn is_leap_year(y: int) -> bool {
    y % 4 == 0 && (y % 100 != 0 || y % 400 == 0)
}

/// Number of days in month `m` (1..=12) of year `y`.
pub open spec fn month_length(y: int, m: int) -> int {
    if m == 2 {
        if is_leap_year(y) {
            29
        } else {
            28
        }
    } else if m == 4 || m == 6 || m == 9 || m == 11 {
        30
    } else {
        31
    }
}

/// Number of days in year `y`.
pub open spec fn year_length(y: int) -> int {
    if is_leap_year(y) {
        366
    } else {
        365
    }
}

/// A (year, month, day) triple names a real calendar day.
pub open spec fn is_valid_civil(y: int, m: int, d: int) -> bool {
    1 <= m <= 12 && 1 <= d <= month_length(y, m)
}

/// Day offset of March-based month `mp` (0 = March, 11 = February) from March 1st.
pub open spec fn march_month_start(mp: int) -> int {
    (153 * mp + 2) / 5
}

/// Days between 0000-03-01 and 1970-01-01.
pub open spec fn epoch_shift() -> int {
    719468
}

/// Signed number of days from 1970-01-01 to the civil date (y, m, d).
///
/// The year is shifted so that it starts in March, which puts the leap day
/// at the end of the internal year; the count is then split into 400-year
/// eras of 146097 days each.
pub open spec fn days_from_civil(y: int, m: int, d: int) -> int {
    let yp = if m <= 2 { y - 1 } else { y };
    let era = yp / 400;
    let yoe = yp - era * 400;
    let mp = if m > 2 { m - 3 } else { m + 9 };
    let doy = march_month_start(mp) + d - 1;
    let doe = yoe * 365 + yoe / 4 - yoe / 100 + doy;
    era * 146097 + doe - epoch_shift()
}

/// Year of era (0..=399) for a day of era (0..=146096).
pub open spec fn year_of_era(doe: int) -> int {
    (doe - doe / 1460 + doe / 36524 - doe / 146096) / 365
}

/// First day of era of the March-based year `yoe` of an era.
pub open spec fn year_of_era_start(yoe: int) -> int {
    365 * yoe + yoe / 4 - yoe / 100
}

/// The civil date (year, month, day) that lies `z` days after 1970-01-01.
pub open spec fn civil_from_days(z: int) -> (int, int, int) {
    let zs = z + epoch_shift();
    let era = zs / 146097;
    let doe = zs - era * 146097;
    let yoe = year_of_era(doe);
    let y = yoe + era * 400;
    let doy = doe - year_of_era_start(yoe);
    let mp = (5 * doy + 2) / 153;
    let d = doy - march_month_start(mp) + 1;
    let m = if mp < 10 { mp + 3 } else { mp - 9 };
    (if m <= 2 { y + 1 } else { y }, m, d)
}

/// Length of the March-based year `yoe` of an era: it ends with the
/// February of the following calendar year.
pub open spec fn march_year_length(yoe: int) -> int {
    year_length(yoe + 1)
}

/// The year of era is recovered from any day of that year.
proof fn lemma_year_of_era(yoe: int, doy: int)
    requires
        0 <= yoe < 400,
        0 <= doy < march_year_length(yoe),
    ensures
        year_of_era(year_of_era_start(yoe) + doy) == yoe,
        0 <= year_of_era_start(yoe) + doy < 146097,
{
}

/// Every day of an era lies in one of its 400 years. The day is split as
/// 100-year, 4-year and 1-year blocks (the last of each one day longer).
proof fn lemma_year_of_era_bounds(doe: int)
    requires
        0 <= doe < 146097,
    ensures
        0 <= year_of_era(doe) < 400,
        0 <= doe - year_of_era_start(year_of_era(doe)) < march_year_length(year_of_era(doe)),
{
    let c = if doe / 36524 > 3 { 3 } else { doe / 36524 };
    let rest1 = doe - 36524 * c;
    let q = rest1 / 1461;
    let rest2 = rest1 - 1461 * q;
    let r = if rest2 / 365 > 3 { 3 } else { rest2 / 365 };
    let doy = rest2 - 365 * r;
    let yoe = 100 * c + 4 * q + r;
    assert(0 <= q < 25);
    assert(year_of_era_start(yoe) == 36524 * c + 1461 * q + 365 * r);
    assert(doy < march_year_length(yoe));
    lemma_year_of_era(yoe, doy);
}

/// Length of March-based month `mp` in a March-based year whose February
/// has `feb` days.
pub open spec fn march_month_length(mp: int, feb: int) -> int {
    if mp == 11 {
        feb
    } else if mp == 1 || mp == 3 || mp == 6 || mp == 8 {
        30
    } else {
        31
    }
}

/// The March-based month is recovered from any of its days.
proof fn lemma_month_of_year(mp: int, d: int)
    requires
        0 <= mp < 12,
        1 <= d <= march_month_length(mp, 29),
    ensures
        (5 * (march_month_start(mp) + d - 1) + 2) / 153 == mp,
{
}

/// Every day of a March-based year falls in a month, on a day that month has.
proof fn lemma_month_of_year_bounds(doy: int)
    requires
        0 <= doy < 366,
    ensures
        ({
            let mp = (5 * doy + 2) / 153;
            let d = doy - march_month_start(mp) + 1;
            &&& 0 <= mp < 12
            &&& 1 <= d <= 31
            &&& mp < 11 ==> d <= march_month_length(mp, 29)
            &&& mp == 11 ==> d == doy - 336
        }),
{
}

/// Leap years repeat every 400 years, in both directions.
pub proof fn lemma_leap_shift(x: int, k: int)
    ensures
        is_leap_year(x + 400 * k) == is_leap_year(x),
{
}

/// A year is a leap year exactly when the year 400 later is.
pub proof fn lemma_leap_period(y: int)
    ensures
        is_leap_year(y) == is_leap_year(y + 400),
{
    lemma_leap_shift(y, 1);
}

/// Every day count names a valid calendar date.
pub proof fn lemma_civil_from_days_valid(z: int)
    ensures
        is_valid_civil(civil_from_days(z).0, civil_from_days(z).1, civil_from_days(z).2),
{
    let zs = z + epoch_shift();
    let era = zs / 146097;
    let doe = zs - era * 146097;
    lemma_year_of_era_bounds(doe);
    let yoe = year_of_era(doe);
    let doy = doe - year_of_era_start(yoe);
    lemma_month_of_year_bounds(doy);
    lemma_leap_shift(yoe + 1, era);
}

/// Converting a valid civil date to a day count and back gives the same date.
pub proof fn lemma_civil_round_trip(y: int, m: int, d: int)
    requires
        is_valid_civil(y, m, d),
    ensures
        civil_from_days(days_from_civil(y, m, d)) == (y, m, d),
{
    let yp = if m <= 2 { y - 1 } else { y };
    let era = yp / 400;
    let yoe = yp - era * 400;
    let mp = if m > 2 { m - 3 } else { m + 9 };
    let doy = march_month_start(mp) + d - 1;
    lemma_leap_shift(yoe + 1, era);
    lemma_month_of_year(mp, d);
    lemma_year_of_era(yoe, doy);
    let doe = year_of_era_start(yoe) + doy;
    let zs = days_from_civil(y, m, d) + epoch_shift();
    assert(zs == era * 146097 + doe);
    assert(zs / 146097 == era);
}

/// The calendar day after the valid date (y, m, d).
pub open spec fn next_day(y: int, m: int, d: int) -> (int, int, int) {
    if d < month_length(y, m) {
        (y, m, d + 1)
    } else if m < 12 {
        (y, m + 1, 1)
    } else {
        (y + 1, 1, 1)
    }
}

/// Day counts run on without a gap or a repeat from each valid date to the
/// next, across month, year and era ends and across 1970-01-01; that day
/// itself is day 0. Together these fix the count of every valid date.
pub proof fn lemma_days_from_civil_steps(y: int, m: int, d: int)
    requires
        is_valid_civil(y, m, d),
    ensures
        days_from_civil(next_day(y, m, d).0, next_day(y, m, d).1, next_day(y, m, d).2)
            == days_from_civil(y, m, d) + 1,
        days_from_civil(1970, 1, 1) == 0,
{
    let yp = if m <= 2 { y - 1 } else { y };
    let era = yp / 400;
    let yoe = yp - era * 400;
    lemma_leap_shift(yoe + 1, era);
    if m == 2 && d == month_length(y, m) {
        let era2 = y / 400;
        let yoe2 = y - era2 * 400;
        if yoe == 399 {
            assert(era2 == era + 1 && yoe2 == 0);
        } else {
            assert(era2 == era && yoe2 == yoe + 1);
        }
    }
}

/// Sakamoto's per-month offset for month `m` (1..=12).
pub open spec fn sakamoto_offset(m: int) -> int {
    if m == 1 { 0 }
    else if m == 2 { 3 }
    else if m == 3 { 2 }
    else if m == 4 { 5 }
    else if m == 5 { 0 }
    else if m == 6 { 3 }
    else if m == 7 { 5 }
    else if m == 8 { 1 }
    else if m == 9 { 4 }
    else if m == 10 { 6 }
    else if m == 11 { 2 }
    else { 4 }
}

/// Day of the week by Sakamoto's method: 0 is Sunday, 6 is Saturday.
/// January and February count as months of the previous year.
pub open spec fn sakamoto(y: int, m: int, d: int) -> int {
    let y = if m < 3 { y - 1 } else { y };
    (y + y / 4 - y / 100 + y / 400 + sakamoto_offset(m) + d) % 7
}

/// Day of the week from the day count: 1970-01-01 was a Thursday (4).
pub open spec fn weekday_of_days(z: int) -> int {
    (z + 4) % 7
}

/// Sakamoto's method agrees with counting days from the epoch, for every
/// month and day number, before and after the epoch.
pub proof fn lemma_sakamoto_matches_day_count(y: int, m: int, d: int)
    requires
        1 <= m <= 12,
    ensures
        sakamoto(y, m, d) == weekday_of_days(days_from_civil(y, m, d)),
{
    let yp = if m <= 2 { y - 1 } else { y };
    let era = yp / 400;
    let yoe = yp - era * 400;
    let mp = if m > 2 { m - 3 } else { m + 9 };
    assert(yp / 4 == 100 * era + yoe / 4);
    assert(yp / 100 == 4 * era + yoe / 100);
    assert(yp / 400 == era);
    let sum = yp + yp / 4 - yp / 100 + yp / 400 + sakamoto_offset(m) + d;
    let days = days_from_civil(y, m, d);
    let c = (sakamoto_offset(m) - march_month_start(mp) + 719465) / 7;
    assert(7 * c == sakamoto_offset(m) - march_month_start(mp) + 719465);
    let k = c - 20800 * era - 52 * yoe;
    assert(sum == 7 * k + (days + 4));
    lemma_mod_multiples_vanish(k, days + 4, 7);
}

/// `a / b` rounded toward negative infinity.
pub fn floor_div(a: i128, b: i128) -> (r: i128)
    requires
        b > 1,
    ensures
        r == a / b,
{
    let q = a / b;
    let m = a % b;
    proof {
        lemma_truncated_div(a as int, b as int, q as int, m as int);
    }
    if m < 0 {
        q - 1
    } else {
        q
    }
}

/// `a` modulo `b`, in `0..b`.
pub fn floor_mod(a: i128, b: i128) -> (r: i128)
    requires
        b > 1,
    ensures
        r == a % b,
{
    let q = a / b;
    let m = a % b;
    proof {
        lemma_truncated_div(a as int, b as int, q as int, m as int);
    }
    if m < 0 {
        m + b
    } else {
        m
    }
}

/// Rust's `/` and `%` on signed integers round toward zero; this relates
/// them to the floor division of `int`.
proof fn lemma_truncated_div(a: int, b: int, q: int, m: int)
    requires
        b > 1,
        q == (if a >= 0 { a / b } else { -((-a) / b) }),
        m == (if a >= 0 { a % b } else { -((-a) % b) }),
    ensures
        m < 0 ==> a / b == q - 1 && a % b == m + b,
        m >= 0 ==> a / b == q && a % b == m,
        -b < m < b,
        a >= 0 ==> 0 <= q <= a,
        a < 0 ==> a <= q <= 0,
        m < 0 ==> a < q,
{
    if a >= 0 {
        lemma_fundamental_div_mod(a, b);
        lemma_div_pos_is_pos(a, b);
        lemma_div_is_ordered_by_denominator(a, 1, b);
    } else {
        lemma_fundamental_div_mod(-a, b);
        lemma_div_pos_is_pos(-a, b);
        lemma_div_is_ordered_by_denominator(-a, 1, b);
    }
    assert(m == a - q * b) by (nonlinear_arith)
        requires
            a >= 0 ==> a == b * (a / b) + a % b && q == a / b && m == a % b,
            a < 0 ==> -a == b * ((-a) / b) + (-a) % b && q == -((-a) / b) && m == -((-a) % b),
    ;
    if m < 0 {
        assert(a < q) by (nonlinear_arith)
            requires
                m == a - q * b,
                m < 0,
                a <= q <= 0,
                b > 1,
        ;
        assert(a == (q - 1) * b + (m + b)) by (nonlinear_arith)
            requires
                m == a - q * b,
        ;
        lemma_fundamental_div_mod_converse(a, b, q - 1, m + b);
    } else {
        lemma_fundamental_div_mod_converse(a, b, q, m);
    }
}

} // verus!
