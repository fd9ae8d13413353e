use nichi::{Date, Day, Month, Year};

fn christmas_2010() -> Date {
    Date::new(2010, 12, 25)
}

#[test]
fn order_does_not_matter() {
    assert_eq!(Date::from_str("2010 dec 25"), Some(christmas_2010()));
    assert_eq!(Date::from_str("25th 2010 Dec"), Some(christmas_2010()));
    assert_eq!(Date::from_str("dec 25 2010"), Some(christmas_2010()));
    assert_eq!(Date::from_str("2010 25th Dec"), Some(christmas_2010()));
    assert_eq!(Date::from_str("25TH 2010 DEC"), Some(christmas_2010()));
}

#[test]
fn any_number_of_separators() {
    assert_eq!(Date::from_str("dec-25 ...       2010"), Some(christmas_2010()));
}

#[test]
fn noisy_text() {
    assert_eq!(
        Date::from_str("----fasdf decBR wef 25 a - >.a2010a...aa"),
        Some(christmas_2010())
    );
    let d = Date::from_str("----fasdf decBR wef 25 a - >.a2010a...aa").unwrap();
    assert_eq!(d.year(), Year(2010));
    assert_eq!(d.month(), Month::December);
    assert_eq!(d.day(), Day::TwentyFifth);
}

#[test]
fn iso_like_forms() {
    assert_eq!(Date::from_str("2010-12-25"), Some(christmas_2010()));
    assert_eq!(Date::from_str("2010.02.02"), Some(Date::new(2010, 2, 2)));
    assert_eq!(Date::from_str("2010/2/2"), Some(Date::new(2010, 2, 2)));
    assert_eq!(Date::from_str("2010_02_2"), Some(Date::new(2010, 2, 2)));
    assert_eq!(Date::from_str("2010 2 02"), Some(Date::new(2010, 2, 2)));
    assert_eq!(Date::from_str("on 1999-1-31, late"), Some(Date::new(1999, 1, 31)));
    assert_eq!(Date::from_str("2010年12月25日"), Some(christmas_2010()));
}

#[test]
fn iso_takes_precedence() {
    assert_eq!(Date::from_str("2010-2-2"), Date::from_str("2010.02.02"));
    assert_eq!(Date::from_str("2010-2-2"), Some(Date::new(2010, 2, 2)));
    assert_eq!(Date::from_str("7 dec 2010-2-2"), Some(Date::new(2010, 2, 2)));
}

#[test]
fn iso_with_bad_fields_falls_back() {
    // the free-form reading takes the first day-shaped token, here 13
    assert_eq!(Date::from_str("2010-13-45 dec 7"), Some(Date::new(2010, 12, 13)));
    assert_eq!(Date::from_str("dec 7, 2010-13-45"), Some(Date::new(2010, 12, 7)));
    assert_eq!(Date::from_str("2010-13-45"), None);
    assert_eq!(Date::from_str("0999-12-25"), None);
}

#[test]
fn iso_leftmost_valid_wins() {
    assert_eq!(Date::from_str("2010-12-25 2011-1-1"), Some(christmas_2010()));
    assert_eq!(Date::from_str("2010-99-25 2011-1-1"), Some(Date::new(2011, 1, 1)));
}

#[test]
fn padded_ordinal_day_fails() {
    assert_eq!(Date::from_str("03rd apr 1000"), None);
    assert_eq!(Date::from_str("apr 03rd 1000 3rd"), None);
    assert_eq!(Date::from_str("APR-03RD-1000"), None);
}

#[test]
fn missing_field_fails() {
    assert_eq!(Date::from_str(""), None);
    assert_eq!(Date::from_str("dec 25"), None);
    assert_eq!(Date::from_str("25 2010"), None);
    assert_eq!(Date::from_str("dec 2010"), None);
    assert_eq!(Date::from_str("dec 2010 99"), None);
    assert_eq!(Date::from_str("dec 201 25"), None);
}

#[test]
fn december_examples() {
    let d = christmas_2010();
    assert_eq!(Date::from_str("dec, 25, 2010"), Some(d));
    assert_eq!(Date::from_str("dec 25 2010"), Some(d));
    assert_eq!(Date::from_str("Dec 25th 2010"), Some(d));
    assert_eq!(Date::from_str("DEC 25TH 2010"), Some(d));
    assert_eq!(Date::from_str("DEC-25th-2010"), Some(d));
    assert_eq!(Date::from_str("2010.dec.25"), Some(d));
    assert_eq!(Date::from_str("2010, 25th, Dec"), Some(d));
    assert_eq!(Date::from_str("2010 december 25th"), Some(d));
    assert_eq!(Date::from_str("2010, DECEMBER, 25th"), Some(d));
    assert_eq!(Date::from_str("DECEMBER 25th 2010"), Some(d));
    assert_eq!(Date::from_str("December 25th, 2010"), Some(d));
}

#[test]
fn april_examples() {
    let d = Date::new(1000, 4, 3);
    assert_eq!(Date::from_str("apr, 3, 1000"), Some(d));
    assert_eq!(Date::from_str("apr 03 1000"), Some(d));
    assert_eq!(Date::from_str("Apr 3rd 1000"), Some(d));
    assert_eq!(Date::from_str("APR 3RD 1000"), Some(d));
    assert_eq!(Date::from_str("APR-3RD-1000"), Some(d));
    assert_eq!(Date::from_str("1000.apr.03"), Some(d));
    assert_eq!(Date::from_str("1000, 3rd, Apr"), Some(d));
    assert_eq!(Date::from_str("1000 april 3rd"), Some(d));
    assert_eq!(Date::from_str("1000, APRIL, 3RD"), Some(d));
    assert_eq!(Date::from_str("APRIL 3rd 1000"), Some(d));
    assert_eq!(Date::from_str("April 3rd, 1000"), Some(d));
}

#[test]
fn free_form_details() {
    assert_eq!(Date::from_str("mAy 5 2020"), Some(Date::new(2020, 5, 5)));
    assert_eq!(Date::from_str("x0123 jun 9"), Some(Date::new(123, 6, 9)));
    assert_eq!(Date::from_str("20101 sep 1"), Some(Date::new(2010, 9, 1)));
    assert_eq!(Date::from_str("feb 30 2021"), Some(Date::new(2021, 2, 30)));
    assert_eq!(Date::from_str("1 feb 2000"), Some(Date::new(2000, 2, 1)));
}

#[test]
fn day_token_ambiguity_is_kept() {
    // the first day-shaped token is taken, even where another was meant
    assert_eq!(Date::from_str("7 items, dec 25 2010"), Some(Date::new(2010, 12, 7)));
    assert_eq!(Date::from_str("dec 2010 5ab 25"), None);
}
