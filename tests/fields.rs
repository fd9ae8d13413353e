use nichi::{Day, DaysInMonth, DaysInYear, Month, Weekday, Year};

#[test]
fn month_constructors() {
    for n in 1..=12u8 {
        assert_eq!(Month::new(n).inner(), n);
        assert_eq!(Month::new_unchecked(n).inner(), n);
        assert_eq!(Month::new_saturating(n).inner(), n);
        assert_eq!(Month::new_wrapping(n).inner(), n);
    }
    assert_eq!(Month::new(1), Month::January);
    assert_eq!(Month::new(12), Month::December);
}

#[test]
fn month_saturating_and_wrapping_diverge() {
    assert_eq!(Month::new_saturating(0), Month::January);
    assert_eq!(Month::new_wrapping(0), Month::December);
    assert_eq!(Month::new_saturating(13), Month::December);
    assert_eq!(Month::new_saturating(14), Month::December);
    assert_eq!(Month::new_saturating(255), Month::December);
    assert_eq!(Month::new_wrapping(13), Month::January);
    assert_eq!(Month::new_wrapping(14), Month::February);
    assert_eq!(Month::new_wrapping(24), Month::December);
    assert_eq!(Month::new_wrapping(255), Month::March);
}

#[test]
fn day_saturating_and_wrapping_diverge() {
    assert_eq!(Day::new_saturating(32), Day::ThirtyFirst);
    assert_eq!(Day::new_wrapping(32), Day::First);
    assert_eq!(Day::new_saturating(0), Day::First);
    assert_eq!(Day::new_wrapping(0), Day::ThirtyFirst);
    assert_eq!(Day::new_wrapping(31), Day::ThirtyFirst);
    assert_eq!(Day::new_wrapping(62), Day::ThirtyFirst);
    assert_eq!(Day::new_wrapping(63), Day::First);
    assert_eq!(Day::new_saturating(255), Day::ThirtyFirst);
    for n in 1..=31u8 {
        assert_eq!(Day::new(n).inner(), n);
        assert_eq!(Day::new_saturating(n).inner(), n);
        assert_eq!(Day::new_wrapping(n).inner(), n);
    }
}

#[test]
fn weekday_constructors() {
    assert_eq!(Weekday::new(1), Weekday::Sunday);
    assert_eq!(Weekday::new(7), Weekday::Saturday);
    assert_eq!(Weekday::new_unchecked(4), Weekday::Wednesday);
    assert_eq!(Weekday::new_saturating(0), Weekday::Sunday);
    assert_eq!(Weekday::new_saturating(8), Weekday::Saturday);
    assert_eq!(Weekday::new_wrapping(0), Weekday::Saturday);
    assert_eq!(Weekday::new_wrapping(8), Weekday::Sunday);
    assert_eq!(Weekday::new_wrapping(14), Weekday::Saturday);
    assert_eq!(Weekday::Saturday.inner(), 7);
}

#[test]
fn days_in_month_values() {
    assert_eq!(DaysInMonth::new(28), DaysInMonth::TwentyEight);
    assert_eq!(DaysInMonth::new(31), DaysInMonth::ThirtyOne);
    assert_eq!(DaysInMonth::new_unchecked(30), DaysInMonth::Thirty);
    assert_eq!(DaysInMonth::TwentyNine.inner(), 29);
    assert_eq!(DaysInMonth::ThirtyOne.as_day(), Day::ThirtyFirst);
    assert_eq!(DaysInMonth::TwentyEight.as_day(), Day::TwentyEighth);
    assert_eq!(DaysInMonth::ThirtyOne.as_str(), "ThirtyOne");
    assert_eq!(DaysInMonth::Thirty.as_str_num(), "30");
    assert_eq!(DaysInMonth::TwentyNine.as_str_lower(), "twentyninth");
    assert_eq!(DaysInMonth::TwentyEight.as_str_upper(), "TWENTYEIGHTH");
    assert_eq!(DaysInMonth::default(), DaysInMonth::ThirtyOne);
    assert!(DaysInMonth::TwentyEight < DaysInMonth::ThirtyOne);
}

#[test]
fn days_in_year_values() {
    assert_eq!(DaysInYear::ThreeSixFive.inner(), 365);
    assert_eq!(DaysInYear::ThreeSixSix.inner(), 366);
    assert_eq!(DaysInYear::ThreeSixFive.as_str(), "ThreeSixFive");
    assert_eq!(DaysInYear::ThreeSixSix.as_str_num(), "366");
    assert_eq!(DaysInYear::ThreeSixFive.as_str_lower(), "threesixfive");
    assert_eq!(DaysInYear::ThreeSixSix.as_str_upper(), "THREESIXSIX");
}

#[test]
fn month_names() {
    assert_eq!(Month::January.as_str(), "January");
    assert_eq!(Month::February.as_str_lower(), "february");
    assert_eq!(Month::March.as_str_upper(), "MARCH");
    assert_eq!(Month::September.as_str_short(), "Sep");
    assert_eq!(Month::October.as_str_short_lower(), "oct");
    assert_eq!(Month::December.as_str_short_upper(), "DEC");
    assert_eq!(Month::November.as_str_num(), "11");
    assert_eq!(Month::May.as_str_num(), "5");
    assert_eq!(Month::December.as_str_jp(), "十二月");
}

#[test]
fn weekday_names() {
    assert_eq!(Weekday::Sunday.as_str(), "Sunday");
    assert_eq!(Weekday::Monday.as_str_lower(), "monday");
    assert_eq!(Weekday::Tuesday.as_str_upper(), "TUESDAY");
    assert_eq!(Weekday::Wednesday.as_str_short(), "Wed");
    assert_eq!(Weekday::Thursday.as_str_short_lower(), "thu");
    assert_eq!(Weekday::Friday.as_str_short_upper(), "FRI");
    assert_eq!(Weekday::Saturday.as_str_jp(), "土曜日");
}

#[test]
fn day_names() {
    assert_eq!(Day::First.as_str_num(), "1");
    assert_eq!(Day::ThirtyFirst.as_str_num(), "31");
    assert_eq!(Day::TwentyFirst.as_str_ordinal(), "TwentyFirst");
    assert_eq!(Day::Second.as_str_ordinal_lower(), "second");
    assert_eq!(Day::Third.as_str_ordinal_upper(), "THIRD");
    assert_eq!(Day::TwentySecond.as_str_num_ordinal(), "22nd");
    assert_eq!(Day::TwentyThird.as_str_num_ordinal_upper(), "23RD");
    assert_eq!(Day::Eleventh.as_str_num_ordinal(), "11th");
}

#[test]
fn month_parsing() {
    assert_eq!(Month::from_str("January"), Some(Month::January));
    assert_eq!(Month::from_str("january"), Some(Month::January));
    assert_eq!(Month::from_str("JANUARY"), Some(Month::January));
    assert_eq!(Month::from_str("jAnUaRy"), Some(Month::January));
    assert_eq!(Month::from_str("Jan"), Some(Month::January));
    assert_eq!(Month::from_str("may"), Some(Month::May));
    assert_eq!(Month::from_str("SEPTEMBER"), Some(Month::September));
    assert_eq!(Month::from_str("1"), Some(Month::January));
    assert_eq!(Month::from_str("01"), Some(Month::January));
    assert_eq!(Month::from_str("09"), Some(Month::September));
    assert_eq!(Month::from_str("12"), Some(Month::December));
    assert_eq!(Month::from_bytes("oct".as_bytes()), Some(Month::October));
    assert_eq!(Month::from_str(""), None);
    assert_eq!(Month::from_str("0"), None);
    assert_eq!(Month::from_str("00"), None);
    assert_eq!(Month::from_str("13"), None);
    assert_eq!(Month::from_str("010"), None);
    assert_eq!(Month::from_str("Janu"), None);
    assert_eq!(Month::from_str("Sept"), None);
    assert_eq!(Month::from_str(" jan"), None);
    for n in 1..=12u8 {
        let m = Month::new(n);
        assert_eq!(Month::from_str(m.as_str()), Some(m));
        assert_eq!(Month::from_str(m.as_str_upper()), Some(m));
        assert_eq!(Month::from_str(m.as_str_short_upper()), Some(m));
        assert_eq!(Month::from_str(m.as_str_num()), Some(m));
    }
}

#[test]
fn weekday_parsing() {
    assert_eq!(Weekday::from_str("SUN"), Some(Weekday::Sunday));
    assert_eq!(Weekday::from_str("Sun"), Some(Weekday::Sunday));
    assert_eq!(Weekday::from_str("sunday"), Some(Weekday::Sunday));
    assert_eq!(Weekday::from_str("Tues"), Some(Weekday::Tuesday));
    assert_eq!(Weekday::from_str("THUR"), Some(Weekday::Thursday));
    assert_eq!(Weekday::from_str("thurs"), Some(Weekday::Thursday));
    assert_eq!(Weekday::from_str("WeDnEsDaY"), Some(Weekday::Wednesday));
    assert_eq!(Weekday::from_bytes("sat".as_bytes()), Some(Weekday::Saturday));
    assert_eq!(Weekday::from_str("1"), None);
    assert_eq!(Weekday::from_str("su"), None);
    assert_eq!(Weekday::from_str("Weds"), None);
    assert_eq!(Weekday::from_str(""), None);
    for n in 1..=7u8 {
        let w = Weekday::new(n);
        assert_eq!(Weekday::from_str(w.as_str()), Some(w));
        assert_eq!(Weekday::from_str(w.as_str_short_upper()), Some(w));
    }
}

#[test]
fn day_parsing() {
    assert_eq!(Day::from_str("1"), Some(Day::First));
    assert_eq!(Day::from_str("1st"), Some(Day::First));
    assert_eq!(Day::from_str("1ST"), Some(Day::First));
    assert_eq!(Day::from_str("First"), Some(Day::First));
    assert_eq!(Day::from_str("FIRST"), Some(Day::First));
    assert_eq!(Day::from_str("2nd"), Some(Day::Second));
    assert_eq!(Day::from_str("second"), Some(Day::Second));
    assert_eq!(Day::from_str("3rd"), Some(Day::Third));
    assert_eq!(Day::from_str("3RD"), Some(Day::Third));
    assert_eq!(Day::from_str("03"), Some(Day::Third));
    assert_eq!(Day::from_str("10th"), Some(Day::Tenth));
    assert_eq!(Day::from_str("tenth"), Some(Day::Tenth));
    assert_eq!(Day::from_str("31st"), Some(Day::ThirtyFirst));
    assert_eq!(Day::from_str("thirtyfirst"), Some(Day::ThirtyFirst));
    assert_eq!(Day::from_str("TwentyFifth"), Some(Day::TwentyFifth));
    assert_eq!(Day::from_str("twentyfifth"), Some(Day::TwentyFifth));
    assert_eq!(Day::from_bytes("25".as_bytes()), Some(Day::TwentyFifth));
    assert_eq!(Day::from_str(""), None);
    assert_eq!(Day::from_str("0"), None);
    assert_eq!(Day::from_str("00"), None);
    assert_eq!(Day::from_str("32"), None);
    assert_eq!(Day::from_str("03rd"), None);
    assert_eq!(Day::from_str("3th"), None);
    assert_eq!(Day::from_str("010"), None);
    for n in 1..=31u8 {
        let d = Day::new(n);
        assert_eq!(Day::from_str(d.as_str_num()), Some(d));
        assert_eq!(Day::from_str(d.as_str_ordinal()), Some(d));
        assert_eq!(Day::from_str(d.as_str_ordinal_upper()), Some(d));
        assert_eq!(Day::from_str(d.as_str_num_ordinal()), Some(d));
        assert_eq!(Day::from_str(d.as_str_num_ordinal_upper()), Some(d));
    }
}

#[test]
fn year_parsing() {
    assert_eq!(Year::from_str("-32768"), Some(Year(-32768)));
    assert_eq!(Year::from_str("0"), Some(Year(0)));
    assert_eq!(Year::from_str("2000"), Some(Year(2000)));
    assert_eq!(Year::from_str("32767"), Some(Year(32767)));
    assert_eq!(Year::from_str("+7"), Some(Year(7)));
    assert_eq!(Year::from_str("-0"), Some(Year(0)));
    assert_eq!(Year::from_str("0002000"), Some(Year(2000)));
    assert_eq!(Year::from_str("32768"), None);
    assert_eq!(Year::from_str("-32769"), None);
    assert_eq!(Year::from_str("99999999999999999999"), None);
    assert_eq!(Year::from_str(""), None);
    assert_eq!(Year::from_str("-"), None);
    assert_eq!(Year::from_str("+"), None);
    assert_eq!(Year::from_str("20a0"), None);
    assert_eq!(Year::from_str(" 2000"), None);
    assert_eq!(Year(2000).inner(), 2000);
}
