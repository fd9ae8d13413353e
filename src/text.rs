//! Byte-level text helpers shared by the name parsers and the date
//! scanner: ASCII classes and case folding, and decimal numbers.
use vstd::prelude::*;
use vstd::string::StrSliceExecFns;

verus! {

/// Value of a string of decimal digits (0 for the empty string).
pub open spec fn digits_value(s: Seq<u8>) -> int
    decreases s.len(),
{
    if s.len() == 0 {
        0
    } else {
        digits_value(s.drop_last()) * 10 + (s.last() - 48)
    }
}

/// Every byte of `s` is a decimal digit.
pub open spec fn all_digits(s: Seq<u8>) -> bool {
    forall|i: int| 0 <= i < s.len() ==> is_digit(#[trigger] s[i])
}

/// The integer written in `s` in decimal, with an optional `+` or `-` sign
/// in front and at least one digit; `None` for any other text.
pub open spec fn decimal_value(s: Seq<u8>) -> Option<int> {
    if s.len() > 1 && s[0] == 45 && all_digits(s.drop_first()) {
        Some(-digits_value(s.drop_first()))
    } else if s.len() > 1 && s[0] == 43 && all_digits(s.drop_first()) {
        Some(digits_value(s.drop_first()))
    } else if s.len() > 0 && all_digits(s) {
        Some(digits_value(s))
    } else {
        None
    }
}

proof fn lemma_digits_value_prefix(s: Seq<u8>, k: int)
    requires
        all_digits(s),
        0 <= k <= s.len(),
    ensures
        0 <= digits_value(s.subrange(0, k)) <= digits_value(s),
    decreases s.len(),
{
    if k < s.len() {
        assert(s.drop_last().subrange(0, k) =~= s.subrange(0, k));
        lemma_digits_value_prefix(s.drop_last(), k);
    } else {
        assert(s.subrange(0, k) =~= s);
        if s.len() > 0 {
            lemma_digits_value_prefix(s.drop_last(), k - 1);
        }
    }
}

/// ASCII lowercase of one byte; other bytes are unchanged.
pub open spec fn lower_byte(c: u8) -> u8 {
    if 65 <= c <= 90 {
        (c + 32) as u8
    } else {
        c
    }
}

/// ASCII lowercase of a byte string, read as characters.
pub open spec fn lower_chars(s: Seq<u8>) -> Seq<char> {
    Seq::new(s.len(), |i: int| lower_byte(s[i]) as char)
}

/// `'0'..='9'`
pub open spec fn is_digit(c: u8) -> bool {
    48 <= c <= 57
}

/// `'A'..='Z'` or `'a'..='z'`
pub open spec fn is_letter(c: u8) -> bool {
    65 <= c <= 90 || 97 <= c <= 122
}

/// Letters, digits and `_`: the bytes that make up a word.
pub open spec fn is_word_byte(c: u8) -> bool {
    is_letter(c) || is_digit(c) || c == 95
}

/// The bytes `b[from..from + lit.len()]` exist and equal `lit`, ignoring
/// ASCII case on the side of `b`.
pub open spec fn window_matches(b: Seq<u8>, from: int, lit: Seq<char>) -> bool {
    &&& 0 <= from
    &&& from + lit.len() <= b.len()
    &&& lower_chars(b.subrange(from, from + lit.len())) == lit
}

/// `b` is exactly `lit`, ignoring ASCII case on the side of `b`.
pub open spec fn full_match(b: Seq<u8>, lit: Seq<char>) -> bool {
    b.len() == lit.len() && window_matches(b, 0, lit)
}

/// `b` is a `0` followed by the one-character text `lit`.
pub open spec fn padded_match(b: Seq<u8>, lit: Seq<char>) -> bool {
    &&& lit.len() == 1
    &&& b.len() == 2
    &&& b[0] == 48
    &&& window_matches(b, 1, lit)
}

/// ASCII lowercase of one byte.
pub(crate) fn lower_u8(c: u8) -> (r: u8)
    ensures
        r == lower_byte(c),
{
    if 65 <= c && c <= 90 {
        c + 32
    } else {
        c
    }
}

/// Whether `b[from..]` starts with `lit`, once `b` is folded to ASCII
/// lowercase.
pub(crate) fn window_eq_ignore_case(b: &[u8], from: usize, lit: &str) -> (r: bool)
    ensures
        r == window_matches(b@, from as int, lit@),
{
    let n = b.len();
    let len = lit.unicode_len();
    if from > n || len > n - from {
        return false;
    }
    let mut i: usize = 0;
    while i < len
        invariant
            n == b@.len(),
            len == lit@.len(),
            from + len <= n,
            0 <= i <= len,
            forall|k: int| 0 <= k < i ==> lower_byte(#[trigger] b@[from + k]) as char == lit@[k],
        decreases len - i,
    {
        if lower_u8(b[from + i]) as char != lit.get_char(i) {
            assert(lower_chars(b@.subrange(from as int, from + len))[i as int] != lit@[i as int]);
            return false;
        }
        i = i + 1;
    }
    assert forall|k: int| 0 <= k < len implies lower_chars(b@.subrange(from as int, from + len))[k]
        == lit@[k] by {
        assert(lower_byte(b@[from + k]) as char == lit@[k]);
    }
    assert(lower_chars(b@.subrange(from as int, from + len)) =~= lit@);
    true
}

/// Whether `b` is exactly `lit`, ignoring the ASCII case of `b`.
pub(crate) fn eq_ignore_case(b: &[u8], lit: &str) -> (r: bool)
    ensures
        r == full_match(b@, lit@),
{
    b.len() == lit.unicode_len() && window_eq_ignore_case(b, 0, lit)
}

/// Whether `b` is a `0` followed by the one-character text `lit`.
pub(crate) fn eq_padded(b: &[u8], lit: &str) -> (r: bool)
    ensures
        r == padded_match(b@, lit@),
{
    lit.unicode_len() == 1 && b.len() == 2 && b[0] == 48 && window_eq_ignore_case(b, 1, lit)
}

/// The value of `b[from..]` when it is a non-empty run of digits whose
/// value is at most `cap`; `None` otherwise.
pub(crate) fn read_digits(b: &[u8], from: usize, cap: u32) -> (r: Option<u32>)
    requires
        from <= b@.len(),
        cap <= 1_000_000,
    ensures
        ({
            let rest = b@.subrange(from as int, b@.len() as int);
            match r {
                Some(v) => rest.len() > 0 && all_digits(rest) && v == digits_value(rest) && v <= cap,
                None => !(rest.len() > 0 && all_digits(rest) && digits_value(rest) <= cap),
            }
        }),
{
    let n = b.len();
    let ghost rest = b@.subrange(from as int, n as int);
    if from == n {
        return None;
    }
    let mut acc: u32 = 0;
    let mut i: usize = from;
    while i < n
        invariant
            n == b@.len(),
            from <= i <= n,
            rest == b@.subrange(from as int, n as int),
            all_digits(b@.subrange(from as int, i as int)),
            acc == digits_value(b@.subrange(from as int, i as int)),
            acc <= cap,
            cap <= 1_000_000,
        decreases n - i,
    {
        let c = b[i];
        if c < 48 || c > 57 {
            assert(!is_digit(rest[i - from]));
            return None;
        }
        proof {
            assert(b@.subrange(from as int, i + 1).drop_last() =~= b@.subrange(from as int, i as int));
            assert(all_digits(b@.subrange(from as int, i + 1)));
        }
        let next: u32 = acc * 10 + (c - 48) as u32;
        i = i + 1;
        if next > cap {
            proof {
                assert(rest.subrange(0, i - from) =~= b@.subrange(from as int, i as int));
                if all_digits(rest) {
                    lemma_digits_value_prefix(rest, i - from);
                }
            }
            return None;
        }
        acc = next;
    }
    assert(b@.subrange(from as int, i as int) =~= rest);
    Some(acc)
}

} // verus!
