//! The lenient date scanner behind `Date::from_str`.
//!
//! Two readings are tried in turn. The first is ISO-like: a four-digit year
//! (not starting with 0), one separator character, a one- or two-digit
//! month, one separator character and a one- or two-digit day, anywhere in
//! the text; the leftmost such run whose month and day parse is taken.
//! Failing that, the year, month and day are looked for independently, in
//! any order: the first four digits in a row are the year, the first
//! three-letter month abbreviation (in any case) is the month, and the first
//! day-shaped token (below) is the day. All three must be found and the day
//! token must parse, else there is no date.
//!
//! A day-shaped token is, at the first position where one starts: two
//! digits followed by two letters, or one digit followed by two letters, or
//! a whole word of two digits, or a whole word of one digit (words are runs
//! of ASCII letters, digits and `_`). The token is then read by
//! `Day::from_bytes`, so `03rd` fails the whole parse rather than being
//! skipped.
//!
//! Bytes are classed as ASCII: any other character is neither a digit, a
//! letter nor part of a word.
use vstd::prelude::*;
use crate::date::Date;
use crate::day::Day;
use crate::month::Month;
use crate::text::{digits_value, is_digit, is_letter, is_word_byte};
use crate::year::Year;

verus! {

/// `b[p]` exists and is a decimal digit.
pub open spec fn digit_at(b: Seq<u8>, p: int) -> bool {
    0 <= p < b.len() && is_digit(b[p])
}

/// `b[p]` exists and is an ASCII letter.
pub open spec fn letter_at(b: Seq<u8>, p: int) -> bool {
    0 <= p < b.len() && is_letter(b[p])
}

/// `b[p]` exists and is a word byte.
pub open spec fn word_at(b: Seq<u8>, p: int) -> bool {
    0 <= p < b.len() && is_word_byte(b[p])
}

/// A word starts or ends between `b[p - 1]` and `b[p]`.
pub open spec fn boundary_at(b: Seq<u8>, p: int) -> bool {
    word_at(b, p - 1) != word_at(b, p)
}

/// Number of bytes in the UTF-8 character whose first byte is `c`.
pub open spec fn char_width(c: u8) -> int {
    if c < 0x80 {
        1
    } else if c < 0xE0 {
        2
    } else if c < 0xF0 {
        3
    } else {
        4
    }
}

/// One separator character starts at `b[p]`: any character but a digit or a
/// line feed.
pub open spec fn sep_at(b: Seq<u8>, p: int) -> bool {
    0 <= p < b.len() && !is_digit(b[p]) && b[p] != 10 && p + char_width(b[p]) <= b.len()
}

/// `b[i..i + 4]` are digits, the first not 0.
pub open spec fn year_digits_at(b: Seq<u8>, i: int) -> bool {
    digit_at(b, i) && b[i] != 48 && digit_at(b, i + 1) && digit_at(b, i + 2) && digit_at(b, i + 3)
}

/// Value of the four digits `b[i..i + 4]`.
pub open spec fn four_digits_value(b: Seq<u8>, i: int) -> int {
    digits_value(b.subrange(i, i + 4))
}

/// The ISO-like date whose year starts at `b[i]`, when there is one there
/// and its month and day parse.
pub open spec fn iso_date_at(b: Seq<u8>, i: int) -> Option<(int, Month, Day)> {
    if !(year_digits_at(b, i) && sep_at(b, i + 4)) {
        None
    } else {
        let ms = i + 4 + char_width(b[i + 4]);
        let ml = if digit_at(b, ms) && !digit_at(b, ms + 1) {
            1int
        } else if digit_at(b, ms) && digit_at(b, ms + 1) && !digit_at(b, ms + 2) {
            2int
        } else {
            0int
        };
        if ml == 0 || !sep_at(b, ms + ml) {
            None
        } else {
            let ds = ms + ml + char_width(b[ms + ml]);
            let dl = if digit_at(b, ds + 1) {
                2int
            } else {
                1int
            };
            if !digit_at(b, ds) {
                None
            } else {
                match (
                    Month::spec_parse(b.subrange(ms, ms + ml)),
                    Day::spec_parse(b.subrange(ds, ds + dl)),
                ) {
                    (Some(m), Some(d)) => Some((four_digits_value(b, i), m, d)),
                    _ => None,
                }
            }
        }
    }
}

/// The leftmost ISO-like date starting at or after `i`.
pub open spec fn first_iso_from(b: Seq<u8>, i: int) -> Option<(int, Month, Day)>
    decreases b.len() - i,
{
    if i < 0 || i >= b.len() {
        None
    } else {
        match iso_date_at(b, i) {
            Some(t) => Some(t),
            None => first_iso_from(b, i + 1),
        }
    }
}

/// The first four digits in a row at or after `i`, as a number.
pub open spec fn first_year_from(b: Seq<u8>, i: int) -> Option<int>
    decreases b.len() - i,
{
    if i < 0 || i + 4 > b.len() {
        None
    } else if digit_at(b, i) && digit_at(b, i + 1) && digit_at(b, i + 2) && digit_at(b, i + 3) {
        Some(four_digits_value(b, i))
    } else {
        first_year_from(b, i + 1)
    }
}

/// The month of the first three-letter month abbreviation at or after `i`.
pub open spec fn first_month_from(b: Seq<u8>, i: int) -> Option<Month>
    decreases b.len() - i,
{
    if i < 0 || i + 3 > b.len() {
        None
    } else {
        match Month::spec_parse(b.subrange(i, i + 3)) {
            Some(m) => Some(m),
            None => first_month_from(b, i + 1),
        }
    }
}

/// Length of the day-shaped token that starts at `b[i]`, or 0.
pub open spec fn day_token_len_at(b: Seq<u8>, i: int) -> int {
    if digit_at(b, i) && digit_at(b, i + 1) && letter_at(b, i + 2) && letter_at(b, i + 3) {
        4
    } else if digit_at(b, i) && letter_at(b, i + 1) && letter_at(b, i + 2) {
        3
    } else if boundary_at(b, i) && digit_at(b, i) && digit_at(b, i + 1) && boundary_at(b, i + 2) {
        2
    } else if boundary_at(b, i) && digit_at(b, i) && boundary_at(b, i + 1) {
        1
    } else {
        0
    }
}

/// Start and length of the first day-shaped token at or after `i`.
pub open spec fn first_day_token_from(b: Seq<u8>, i: int) -> Option<(int, int)>
    decreases b.len() - i,
{
    if i < 0 || i >= b.len() {
        None
    } else if day_token_len_at(b, i) > 0 {
        Some((i, day_token_len_at(b, i)))
    } else {
        first_day_token_from(b, i + 1)
    }
}

/// The date read from anywhere in `b` by the free-form rules.
pub open spec fn free_form_date(b: Seq<u8>) -> Option<(int, Month, Day)> {
    match (first_year_from(b, 0), first_month_from(b, 0), first_day_token_from(b, 0)) {
        (Some(y), Some(m), Some(t)) => match Day::spec_parse(b.subrange(t.0, t.0 + t.1)) {
            Some(d) => Some((y, m, d)),
            None => None,
        },
        _ => None,
    }
}

/// The (year, month, day) read from the text `b`: the leftmost ISO-like
/// date if there is one, else the free-form reading.
pub open spec fn parse_date_spec(b: Seq<u8>) -> Option<(int, Month, Day)> {
    match first_iso_from(b, 0) {
        Some(t) => Some(t),
        None => free_form_date(b),
    }
}

proof fn lemma_first_day_token_bounds(b: Seq<u8>, i: int)
    ensures
        first_day_token_from(b, i) matches Some(t) ==> i <= t.0 && 0 < t.1 && t.0 + t.1 <= b.len(),
    decreases b.len() - i,
{
    if 0 <= i < b.len() && day_token_len_at(b, i) == 0 {
        lemma_first_day_token_bounds(b, i + 1);
    }
}

/// When the first day-shaped token is a zero-padded number with an ordinal
/// suffix (`03rd`), the free-form reading fails: it does not go on to a
/// later token.
pub proof fn lemma_padded_ordinal_fails(b: Seq<u8>)
    requires
        first_day_token_from(b, 0) matches Some(t) && t.1 > 2 && b[t.0] == 48,
    ensures
        free_form_date(b) is None,
{
    lemma_first_day_token_bounds(b, 0);
    let t = first_day_token_from(b, 0)->Some_0;
    Day::lemma_no_padded_ordinal(b.subrange(t.0, t.0 + t.1));
}

/// An ISO-like or free-form reading, with the year as an `i16`, as a
/// reading of the spec form.
pub open spec fn widen(r: Option<(i16, Month, Day)>) -> Option<(int, Month, Day)> {
    match r {
        Some(t) => Some((t.0 as int, t.1, t.2)),
        None => None,
    }
}

fn digit_at_exec(b: &[u8], i: usize, k: usize) -> (r: bool)
    ensures
        r == digit_at(b@, i + k),
{
    i < b.len() && k < b.len() - i && 48 <= b[i + k] && b[i + k] <= 57
}

fn letter_at_exec(b: &[u8], i: usize, k: usize) -> (r: bool)
    ensures
        r == letter_at(b@, i + k),
{
    i < b.len() && k < b.len() - i && ((65 <= b[i + k] && b[i + k] <= 90) || (97 <= b[i + k]
        && b[i + k] <= 122))
}

fn word_at_exec(b: &[u8], i: usize, k: usize) -> (r: bool)
    ensures
        r == word_at(b@, i + k),
{
    digit_at_exec(b, i, k) || letter_at_exec(b, i, k) || (i < b.len() && k < b.len() - i && b[i
        + k] == 95)
}

fn boundary_at_exec(b: &[u8], i: usize, k: usize) -> (r: bool)
    ensures
        r == boundary_at(b@, i + k),
{
    let before = if k > 0 {
        word_at_exec(b, i, k - 1)
    } else {
        i > 0 && word_at_exec(b, i - 1, 0)
    };
    before != word_at_exec(b, i, k)
}

fn char_width_exec(c: u8) -> (r: usize)
    ensures
        r == char_width(c),
{
    if c < 0x80 {
        1
    } else if c < 0xE0 {
        2
    } else if c < 0xF0 {
        3
    } else {
        4
    }
}

fn sep_at_exec(b: &[u8], i: usize, k: usize) -> (r: bool)
    ensures
        r == sep_at(b@, i + k),
{
    i < b.len() && k < b.len() - i && !(48 <= b[i + k] && b[i + k] <= 57) && b[i + k] != 10
        && char_width_exec(b[i + k]) <= b.len() - i - k
}

/// Value of the four digits `b[i..i + 4]`.
fn four_digits(b: &[u8], i: usize) -> (r: i16)
    requires
        digit_at(b@, i as int),
        digit_at(b@, i + 1),
        digit_at(b@, i + 2),
        digit_at(b@, i + 3),
    ensures
        r == four_digits_value(b@, i as int),
        0 <= r <= 9999,
{
    let ghost s = b@.subrange(i as int, i + 4);
    proof {
        assert(s.drop_last() =~= b@.subrange(i as int, i + 3));
        assert(s.drop_last().drop_last() =~= b@.subrange(i as int, i + 2));
        assert(s.drop_last().drop_last().drop_last() =~= b@.subrange(i as int, i + 1));
        assert(s.drop_last().drop_last().drop_last().drop_last() =~= Seq::<u8>::empty());
        reveal_with_fuel(digits_value, 5);
    }
    let d0 = (b[i] - 48) as i16;
    let d1 = (b[i + 1] - 48) as i16;
    let d2 = (b[i + 2] - 48) as i16;
    let d3 = (b[i + 3] - 48) as i16;
    d0 * 1000 + d1 * 100 + d2 * 10 + d3
}

fn iso_date_at_exec(b: &[u8], i: usize) -> (r: Option<(i16, Month, Day)>)
    ensures
        widen(r) == iso_date_at(b@, i as int),
{
    if !(digit_at_exec(b, i, 0) && b[i] != 48 && digit_at_exec(b, i, 1) && digit_at_exec(b, i, 2)
        && digit_at_exec(b, i, 3) && sep_at_exec(b, i, 4)) {
        return None;
    }
    let ms = i + 4 + char_width_exec(b[i + 4]);
    let ml: usize = if digit_at_exec(b, ms, 0) && !digit_at_exec(b, ms, 1) {
        1
    } else if digit_at_exec(b, ms, 0) && digit_at_exec(b, ms, 1) && !digit_at_exec(b, ms, 2) {
        2
    } else {
        0
    };
    if ml == 0 || !sep_at_exec(b, ms, ml) {
        return None;
    }
    let ds = ms + ml + char_width_exec(b[ms + ml]);
    if !digit_at_exec(b, ds, 0) {
        return None;
    }
    let dl: usize = if digit_at_exec(b, ds, 1) {
        2
    } else {
        1
    };
    let month = Month::from_bytes(&b[ms..ms + ml]);
    let day = Day::from_bytes(&b[ds..ds + dl]);
    match (month, day) {
        (Some(m), Some(d)) => Some((four_digits(b, i), m, d)),
        _ => None,
    }
}

fn first_iso(b: &[u8]) -> (r: Option<(i16, Month, Day)>)
    ensures
        widen(r) == first_iso_from(b@, 0),
{
    let n = b.len();
    let mut i: usize = 0;
    while i < n
        invariant
            n == b@.len(),
            i <= n,
            first_iso_from(b@, 0) == first_iso_from(b@, i as int),
        decreases n - i,
    {
        let t = iso_date_at_exec(b, i);
        if t.is_some() {
            return t;
        }
        i = i + 1;
    }
    None
}

fn first_year(b: &[u8]) -> (r: Option<i16>)
    ensures
        match first_year_from(b@, 0) {
            Some(y) => r == Some(y as i16) && 0 <= y <= 9999,
            None => r is None,
        },
{
    let n = b.len();
    let mut i: usize = 0;
    while 4 <= n - i
        invariant
            n == b@.len(),
            i <= n,
            first_year_from(b@, 0) == first_year_from(b@, i as int),
        decreases n - i,
    {
        if digit_at_exec(b, i, 0) && digit_at_exec(b, i, 1) && digit_at_exec(b, i, 2)
            && digit_at_exec(b, i, 3) {
            return Some(four_digits(b, i));
        }
        i = i + 1;
    }
    None
}

fn first_month(b: &[u8]) -> (r: Option<Month>)
    ensures
        r == first_month_from(b@, 0),
{
    let n = b.len();
    let mut i: usize = 0;
    while 3 <= n - i
        invariant
            n == b@.len(),
            i <= n,
            first_month_from(b@, 0) == first_month_from(b@, i as int),
        decreases n - i,
    {
        let m = Month::from_bytes(&b[i..i + 3]);
        if m.is_some() {
            return m;
        }
        i = i + 1;
    }
    None
}

fn day_token_len_at_exec(b: &[u8], i: usize) -> (r: usize)
    requires
        i < b@.len(),
    ensures
        r == day_token_len_at(b@, i as int),
{
    if digit_at_exec(b, i, 0) && digit_at_exec(b, i, 1) && letter_at_exec(b, i, 2)
        && letter_at_exec(b, i, 3) {
        4
    } else if digit_at_exec(b, i, 0) && letter_at_exec(b, i, 1) && letter_at_exec(b, i, 2) {
        3
    } else if boundary_at_exec(b, i, 0) && digit_at_exec(b, i, 0) && digit_at_exec(b, i, 1)
        && boundary_at_exec(b, i, 2) {
        2
    } else if boundary_at_exec(b, i, 0) && digit_at_exec(b, i, 0) && boundary_at_exec(b, i, 1) {
        1
    } else {
        0
    }
}

fn first_day_token(b: &[u8]) -> (r: Option<(usize, usize)>)
    ensures
        match first_day_token_from(b@, 0) {
            Some(t) => r == Some((t.0 as usize, t.1 as usize)) && 0 <= t.0 && 0 < t.1 && t.0 + t.1
                <= b@.len(),
            None => r is None,
        },
{
    let n = b.len();
    let mut i: usize = 0;
    while i < n
        invariant
            n == b@.len(),
            i <= n,
            first_day_token_from(b@, 0) == first_day_token_from(b@, i as int),
        decreases n - i,
    {
        let len = day_token_len_at_exec(b, i);
        if len > 0 {
            return Some((i, len));
        }
        i = i + 1;
    }
    None
}

/// Read a date out of the text `b`; see the module documentation.
pub fn parse_date(b: &[u8]) -> (r: Option<Date>)
    ensures
        match parse_date_spec(b@) {
            Some(t) => r matches Some(d) && d.year().0 == t.0 && d.month() == t.1 && d.day() == t.2,
            None => r is None,
        },
{
    match first_iso(b) {
        Some(t) => {
            return Some(Date::new_typed(Year(t.0), t.1, t.2));
        },
        None => {},
    }
    let y = match first_year(b) {
        Some(y) => y,
        None => return None,
    };
    let m = match first_month(b) {
        Some(m) => m,
        None => return None,
    };
    let (start, len) = match first_day_token(b) {
        Some(t) => t,
        None => return None,
    };
    let n = b.len();
    assert(start + len <= n);
    match Day::from_bytes(&b[start..start + len]) {
        Some(d) => Some(Date::new_typed(Year(y), m, d)),
        None => None,
    }
}

} // verus!
