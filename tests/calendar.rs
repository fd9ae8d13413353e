use nichi::{days_in_month, is_leap, Date, Day, DaysInMonth, DaysInYear, Month, Weekday, Year};

#[test]
fn leap_years_known_values() {
    assert!(!is_leap(1900));
    assert!(is_leap(2000));
    assert!(is_leap(2024));
    assert!(!is_leap(2023));
    assert!(is_leap(2020));
    assert!(!is_leap(2019));
    assert!(!Year(2019).is_leap());
    assert!(Year(2020).is_leap());
    assert!(!Year(2023).is_leap());
    assert!(Year(2024).is_leap());
}

#[test]
fn leap_years_negative() {
    assert!(is_leap(0));
    assert!(is_leap(-4));
    assert!(!is_leap(-1));
    assert!(!is_leap(-100));
    assert!(is_leap(-400));
    assert!(Year(-400).is_leap());
    assert!(!Year(-100).is_leap());
}

#[test]
fn leap_years_repeat_every_400() {
    let mut y: i128 = -2000;
    while y <= 2000 {
        assert_eq!(is_leap(y), is_leap(y + 400));
        y += 1;
    }
    assert_eq!(is_leap(i128::MAX - 400), is_leap(i128::MAX - 800));
}

#[test]
fn month_lengths() {
    assert_eq!(days_in_month(2000, Month::January), DaysInMonth::ThirtyOne);
    assert_eq!(days_in_month(2020, Month::February), DaysInMonth::TwentyNine);
    assert_eq!(days_in_month(2019, Month::February), DaysInMonth::TwentyEight);
    assert_eq!(days_in_month(1900, Month::February), DaysInMonth::TwentyEight);
    assert_eq!(days_in_month(-4, Month::February), DaysInMonth::TwentyNine);
    assert_eq!(Year(2019).days_in_month(Month::January), DaysInMonth::ThirtyOne);
    assert_eq!(Year(2019).days_in_month(Month::April), DaysInMonth::Thirty);
    assert_eq!(Year(2019).days_in_month(Month::February), DaysInMonth::TwentyEight);
    assert_eq!(Year(2020).days_in_month(Month::February), DaysInMonth::TwentyNine);
    let lengths = [31u8, 28, 31, 30, 31, 30, 31, 31, 30, 31, 30, 31];
    for (i, len) in lengths.iter().enumerate() {
        let m = Month::new(i as u8 + 1);
        assert_eq!(Year(2023).days_in_month(m).inner(), *len);
    }
}

#[test]
fn year_lengths() {
    assert_eq!(Year(2019).days_in_year(), DaysInYear::ThreeSixFive);
    assert_eq!(Year(2020).days_in_year(), DaysInYear::ThreeSixSix);
    assert_eq!(Year(2019).days_in_year().inner(), 365);
    assert_eq!(Year(2020).days_in_year().inner(), 366);
    assert!(Year(1900).days_in_year().is_365());
    assert!(Year(2000).days_in_year().is_366());
    assert!(!Year(2000).days_in_year().is_365());
    assert!(!Year(2001).days_in_year().is_366());
}

#[test]
fn epoch_fixed_points() {
    assert_eq!(Date::new(1970, 1, 1).as_days(), 0);
    assert_eq!(Date::new(1970, 1, 2).as_days(), 1);
    assert_eq!(Date::new(1969, 12, 31).as_days(), -1);
    assert_eq!(Date::from_days(0), Date::new(1970, 1, 1));
    assert_eq!(Date::from_days(1), Date::new(1970, 1, 2));
    assert_eq!(Date::from_days(-1), Date::new(1969, 12, 31));
    assert_eq!(Date::new(1970, 1, 1).as_unix(), 0);
}

#[test]
fn unix_examples() {
    assert_eq!(Date::from_unix(0), Date::new(1970, 1, 1));
    assert_eq!(Date::from_unix(86399), Date::new(1970, 1, 1));
    assert_eq!(Date::from_unix(86400), Date::new(1970, 1, 2));
    assert_eq!(Date::from_unix(1697760000), Date::new(2023, 10, 20));
    assert_eq!(Date::new(2023, 10, 20).as_unix(), 1697760000);
}

#[test]
fn unix_before_epoch_floors() {
    assert_eq!(Date::from_unix(-1), Date::new(1969, 12, 31));
    assert_eq!(Date::from_unix(-86399), Date::new(1969, 12, 31));
    assert_eq!(Date::from_unix(-86400), Date::new(1969, 12, 31));
    assert_eq!(Date::from_unix(-86401), Date::new(1969, 12, 30));
    assert_eq!(Date::new(1969, 12, 31).as_unix(), -86400);
}

#[test]
fn continuity_across_zero() {
    let mut z: i128 = -800;
    while z < 800 {
        let a = Date::from_days(z);
        let b = Date::from_days(z + 1);
        assert_eq!(a.as_days() + 1, b.as_days());
        assert_eq!(
            Weekday::new_wrapping(a.weekday().inner() + 1),
            b.weekday()
        );
        assert!(a < b);
        z += 1;
    }
    assert_eq!(Date::new(1969, 12, 31).weekday(), Weekday::Wednesday);
    assert_eq!(Date::new(1970, 1, 1).weekday(), Weekday::Thursday);
}

#[test]
fn negative_year_boundary() {
    assert_eq!(Date::new(0, 1, 1).as_days(), -719528);
    assert_eq!(Date::new(-1, 12, 31).as_days(), -719529);
    assert_eq!(Date::from_days(-719529), Date::new(-1, 12, 31));
    assert_eq!(Date::from_days(-719528), Date::new(0, 1, 1));
    assert_eq!(Date::new(0, 3, 1).as_days(), -719468);
    assert_eq!(Date::new(0, 2, 29).as_days(), -719469);
    assert_eq!(Date::new(-1, 12, 31).weekday(), Weekday::Friday);
    assert_eq!(Date::new(0, 1, 1).weekday(), Weekday::Saturday);
}

#[test]
fn round_trip_days_and_seconds() {
    let mut year: i16 = -2500;
    while year <= 2500 {
        for month in 1..=12u8 {
            let last = Year(year).days_in_month(Month::new(month)).inner();
            for day in [1u8, 2, 15, 28, last] {
                let date = Date::new(year, month, day);
                assert_eq!(Date::from_days(date.as_days()), date);
                assert_eq!(Date::from_unix(date.as_unix()), date);
                assert_eq!(Date::from_unix(date.as_unix() + 86399), date);
            }
        }
        year += 7;
    }
}

#[test]
fn round_trip_extreme_years() {
    for (y, m, d) in [(i16::MAX, 12u8, 31u8), (i16::MIN, 1, 1), (i16::MIN, 2, 29), (i16::MAX, 2, 28)] {
        let date = Date::new(y, m, d);
        assert_eq!(Date::from_days(date.as_days()), date);
        assert_eq!(Date::from_unix(date.as_unix()), date);
    }
}

#[test]
fn from_days_clamps_year() {
    let after = Date::new(i16::MAX, 12, 31).as_days() + 1;
    let d = Date::from_days(after);
    assert_eq!(d.year(), Year(i16::MAX));
    assert_eq!(d.month(), Month::January);
    assert_eq!(d.day(), Day::First);
    let before = Date::new(i16::MIN, 1, 1).as_days() - 1;
    let d = Date::from_days(before);
    assert_eq!(d.year(), Year(i16::MIN));
    assert_eq!(d.month(), Month::December);
    assert_eq!(d.day(), Day::ThirtyFirst);
    assert_eq!(Date::from_days(i128::MAX).year(), Year(i16::MAX));
    assert_eq!(Date::from_days(i128::MIN).year(), Year(i16::MIN));
    assert_eq!(Date::from_unix(i128::MAX).year(), Year(i16::MAX));
    assert_eq!(Date::from_unix(i128::MIN).year(), Year(i16::MIN));
}

#[test]
fn weekday_ground_truth() {
    assert_eq!(Date::new(1776, 7, 4).weekday(), Weekday::Thursday);
    assert_eq!(Date::new(2017, 3, 3).weekday(), Weekday::Friday);
    assert_eq!(Date::new(1999, 12, 25).weekday(), Weekday::Saturday);
    assert_eq!(Date::new(2018, 4, 25).weekday(), Weekday::Wednesday);
    assert_eq!(Date::new(2000, 12, 25).weekday(), Weekday::Monday);
    assert_eq!(Date::new(1582, 10, 15).weekday(), Weekday::Friday);
    assert_eq!(Date::new(1969, 7, 20).weekday(), Weekday::Sunday);
    assert_eq!(Date::new(2000, 1, 1).weekday(), Weekday::Saturday);
    assert_eq!(
        Date::new_typed(Year(2000), Month::December, Day::TwentyFifth).weekday(),
        Weekday::Monday
    );
    assert_eq!(Date::weekday_raw(2000, 12, 25), Weekday::Monday);
}

#[test]
fn weekday_agrees_with_day_count() {
    let mut checked = 0;
    let mut year: i16 = -3000;
    while year <= 3000 {
        for month in 1..=12u8 {
            for day in [1u8, 9, 17, 28] {
                let date = Date::new(year, month, day);
                let from_days = (date.as_days() + 4).rem_euclid(7) as u8 + 1;
                assert_eq!(date.weekday().inner(), from_days);
                checked += 1;
            }
        }
        year += 13;
    }
    assert!(checked >= 1000);
}

#[test]
fn weekday_extreme_years() {
    for (y, m, d) in [(i16::MIN, 1, 1u8), (i16::MIN, 2, 28), (i16::MAX, 12, 31), (-1, 1, 1)] {
        let date = Date::new(y, m, d);
        let from_days = (date.as_days() + 4).rem_euclid(7) as u8 + 1;
        assert_eq!(date.weekday().inner(), from_days);
    }
}
