//! Text helpers shared by the rendering pipeline: joining and comparing
//! strings, writing and reading decimal numbers, and trimming whitespace.

use vstd::prelude::*;
use vstd::string::*;

verus! {

/// Copies a string slice into an owned string.
pub fn owned(s: &str) -> (r: String)
    ensures
        r@ == s@,
{
    String::from_str(s)
}

/// The two strings written one after the other.
pub fn join2(a: &str, b: &str) -> (r: String)
    ensures
        r@ == a@ + b@,
{
    let mut r = String::from_str(a);
    r.append(b);
    r
}

/// The number of characters in `s`.
pub fn char_count(s: &str) -> (n: usize)
    ensures
        n == s@.len(),
{
    s.unicode_len()
}

/// Tells whether two string slices hold the same characters.
pub fn str_eq(a: &str, b: &str) -> (r: bool)
    ensures
        r == (a@ == b@),
{
    String::from_str(a) == String::from_str(b)
}

/// The character that writes the decimal digit `d`.
pub open spec fn digit_char(d: nat) -> char {
    if d == 0 {
        '0'
    } else if d == 1 {
        '1'
    } else if d == 2 {
        '2'
    } else if d == 3 {
        '3'
    } else if d == 4 {
        '4'
    } else if d == 5 {
        '5'
    } else if d == 6 {
        '6'
    } else if d == 7 {
        '7'
    } else if d == 8 {
        '8'
    } else {
        '9'
    }
}

/// The decimal numeral of `n`: most significant digit first, no sign and no
/// leading zero.
pub open spec fn decimal_digits(n: nat) -> Seq<char>
    decreases n,
{
    if n < 10 {
        seq![digit_char(n)]
    } else {
        decimal_digits(n / 10).push(digit_char(n % 10))
    }
}

fn digit(d: u64) -> (text: &'static str)
    requires
        d < 10,
    ensures
        text@ == seq![digit_char(d as nat)],
{
    proof {
        reveal_strlit("0");
        reveal_strlit("1");
        reveal_strlit("2");
        reveal_strlit("3");
        reveal_strlit("4");
        reveal_strlit("5");
        reveal_strlit("6");
        reveal_strlit("7");
        reveal_strlit("8");
        reveal_strlit("9");
    }
    let text = if d == 0 {
        "0"
    } else if d == 1 {
        "1"
    } else if d == 2 {
        "2"
    } else if d == 3 {
        "3"
    } else if d == 4 {
        "4"
    } else if d == 5 {
        "5"
    } else if d == 6 {
        "6"
    } else if d == 7 {
        "7"
    } else if d == 8 {
        "8"
    } else {
        "9"
    };
    assert(text@ =~= seq![digit_char(d as nat)]);
    text
}

/// Writes `n` in decimal.
pub fn decimal(n: u64) -> (s: String)
    ensures
        s@ == decimal_digits(n as nat),
    decreases n,
{
    if n < 10 {
        owned(digit(n))
    } else {
        let mut s = decimal(n / 10);
        s.append(digit(n % 10));
        assert(s@ =~= decimal_digits((n / 10) as nat).push(digit_char((n % 10) as nat)));
        s
    }
}

/// Tells whether `c` is one of the ten decimal digits.
pub open spec fn is_digit(c: char) -> bool {
    c == '0' || c == '1' || c == '2' || c == '3' || c == '4' || c == '5' || c == '6' || c == '7'
        || c == '8' || c == '9'
}

/// The number that a decimal digit writes.
pub open spec fn digit_value(c: char) -> nat {
    if c == '1' {
        1
    } else if c == '2' {
        2
    } else if c == '3' {
        3
    } else if c == '4' {
        4
    } else if c == '5' {
        5
    } else if c == '6' {
        6
    } else if c == '7' {
        7
    } else if c == '8' {
        8
    } else if c == '9' {
        9
    } else {
        0
    }
}

/// The number that a run of decimal digits writes.
pub open spec fn digits_value(digits: Seq<char>) -> nat
    decreases digits.len(),
{
    if digits.len() == 0 {
        0
    } else {
        digits_value(digits.drop_last()) * 10 + digit_value(digits.last())
    }
}

/// Tells whether every character of `s` is a decimal digit.
pub open spec fn all_digits(s: Seq<char>) -> bool {
    forall|i: int| 0 <= i < s.len() ==> is_digit(#[trigger] s[i])
}

/// The number that the digit `c` writes; none for another character.
pub fn digit_of(c: char) -> (d: Option<u64>)
    ensures
        match d {
            Some(v) => is_digit(c) && v == digit_value(c),
            None => !is_digit(c),
        },
{
    if c == '0' {
        Some(0)
    } else if c == '1' {
        Some(1)
    } else if c == '2' {
        Some(2)
    } else if c == '3' {
        Some(3)
    } else if c == '4' {
        Some(4)
    } else if c == '5' {
        Some(5)
    } else if c == '6' {
        Some(6)
    } else if c == '7' {
        Some(7)
    } else if c == '8' {
        Some(8)
    } else if c == '9' {
        Some(9)
    } else {
        None
    }
}

/// The digits of a number that may carry a plus sign.
pub open spec fn unsigned_part(text: Seq<char>) -> Seq<char> {
    if text.len() > 0 && text[0] == '+' {
        text.skip(1)
    } else {
        text
    }
}

/// The number that `text` writes, where it writes one that fits in 32 bits:
/// one or more decimal digits, with or without a plus sign before them.
/// Whitespace, a minus sign or any other character makes the text no
/// number.
pub open spec fn parsed_u32(text: Seq<char>) -> Option<u32> {
    let digits = unsigned_part(text);
    if digits.len() > 0 && all_digits(digits) && digits_value(digits) <= u32::MAX {
        Some(digits_value(digits) as u32)
    } else {
        None
    }
}

/// Reads an unsigned number of at most 32 bits.
pub fn parse_u32(text: &str) -> (r: Option<u32>)
    ensures
        r == parsed_u32(text@),
{
    let ghost digits = unsigned_part(text@);
    let len = text.unicode_len();
    let mut value: u64 = 0;
    let mut too_large = false;
    let mut valid = true;
    let mut signed = false;
    let mut count: usize = 0;
    let mut i: usize = 0;
    for c in it: text.chars()
        invariant
            it.seq() == text@,
            len == text@.len(),
            i == it.index(),
            i <= len,
            digits == unsigned_part(text@),
            signed == (i > 0 && text@[0] == '+'),
            count == if signed {
                i - 1
            } else {
                i as int
            },
            valid ==> all_digits(digits.take(count as int)),
            !valid ==> !all_digits(digits),
            valid && !too_large ==> value == digits_value(digits.take(count as int)) && value
                <= u32::MAX,
            valid && too_large ==> digits_value(digits.take(count as int)) > u32::MAX,
    {
        if i == 0 && c == '+' {
            signed = true;
            proof {
                assert(digits.take(0) =~= Seq::<char>::empty());
            }
        } else if valid {
            proof {
                assert(digits[count as int] == c);
                assert(digits.take(count + 1).drop_last() =~= digits.take(count as int));
                assert(digits.take(count + 1).last() == c);
            }
            match digit_of(c) {
                Some(d) => {
                    proof {
                        assert forall|j: int| 0 <= j < count + 1 implies is_digit(
                            #[trigger] digits.take(count + 1)[j],
                        ) by {
                            if j < count {
                                assert(digits.take(count as int)[j] == digits[j]);
                            }
                        }
                    }
                    if !too_large {
                        value = value * 10 + d;
                        if value > 0xffff_ffff {
                            too_large = true;
                        }
                    }
                },
                None => {
                    valid = false;
                },
            }
            count = count + 1;
        } else {
            count = count + 1;
        }
        i += 1;
    }
    proof {
        assert(digits.take(digits.len() as int) =~= digits);
        if len == 0 {
            assert(digits.len() == 0);
        }
    }
    if valid && !too_large && count > 0 {
        Some(value as u32)
    } else {
        None
    }
}

/// Tells whether `c` counts as whitespace: whether it has the Unicode
/// property White_Space.
pub open spec fn char_is_whitespace(c: char) -> bool {
    c == ' ' || ('\t' <= c && c <= '\r') || c == '\u{85}' || c == '\u{a0}' || c == '\u{1680}' || (
    '\u{2000}' <= c && c <= '\u{200a}') || c == '\u{2028}' || c == '\u{2029}' || c == '\u{202f}'
        || c == '\u{205f}' || c == '\u{3000}'
}

/// Tells whether `c` counts as whitespace.
pub fn is_whitespace(c: char) -> (r: bool)
    ensures
        r == char_is_whitespace(c),
{
    c == ' ' || ('\t' <= c && c <= '\r') || c == '\u{85}' || c == '\u{a0}' || c == '\u{1680}' || (
    '\u{2000}' <= c && c <= '\u{200a}') || c == '\u{2028}' || c == '\u{2029}' || c == '\u{202f}'
        || c == '\u{205f}' || c == '\u{3000}'
}

/// Tells whether `text` begins with exactly `count` characters of
/// whitespace.
pub open spec fn is_leading_whitespace(text: Seq<char>, count: int) -> bool {
    &&& 0 <= count <= text.len()
    &&& forall|i: int| 0 <= i < count ==> char_is_whitespace(#[trigger] text[i])
    &&& count < text.len() ==> !char_is_whitespace(text[count])
}

/// Tells whether `text` ends with exactly `count` characters of
/// whitespace.
pub open spec fn is_trailing_whitespace(text: Seq<char>, count: int) -> bool {
    &&& 0 <= count <= text.len()
    &&& forall|i: int|
        text.len() - count <= i < text.len() ==> char_is_whitespace(#[trigger] text[i])
    &&& count < text.len() ==> !char_is_whitespace(text[text.len() - count - 1])
}

/// `text` without the whitespace at its beginning and at its end.
pub open spec fn trimmed(text: Seq<char>) -> Seq<char> {
    let leading = choose|count: int| is_leading_whitespace(text, count);
    let trailing = choose|count: int| is_trailing_whitespace(text, count);
    if leading == text.len() {
        Seq::empty()
    } else {
        text.subrange(leading, text.len() - trailing)
    }
}

/// Removes the whitespace at the beginning and at the end of `text`.
pub fn trim(text: &str) -> (r: String)
    ensures
        r@ == trimmed(text@),
{
    let len = text.unicode_len();
    let mut start: usize = 0;
    let mut end: usize = 0;
    let mut seen = false;
    let mut i: usize = 0;
    for c in it: text.chars()
        invariant
            it.seq() == text@,
            len == text@.len(),
            i == it.index(),
            i <= len,
            !seen ==> forall|j: int| 0 <= j < i ==> char_is_whitespace(#[trigger] text@[j]),
            seen ==> start < end <= i && !char_is_whitespace(text@[start as int])
                && !char_is_whitespace(text@[end - 1]),
            seen ==> forall|j: int| 0 <= j < start ==> char_is_whitespace(#[trigger] text@[j]),
            seen ==> forall|j: int| end <= j < i ==> char_is_whitespace(#[trigger] text@[j]),
    {
        if !is_whitespace(c) {
            if !seen {
                start = i;
                seen = true;
            }
            end = i + 1;
        }
        i += 1;
    }
    proof {
        let leading = choose|count: int| is_leading_whitespace(text@, count);
        let trailing = choose|count: int| is_trailing_whitespace(text@, count);
        if seen {
            assert(is_leading_whitespace(text@, start as int));
            assert(is_trailing_whitespace(text@, len - end));
            if leading < start {
                assert(char_is_whitespace(text@[leading]));
            } else if leading > start {
                assert(char_is_whitespace(text@[start as int]));
            }
            if trailing < len - end {
                assert(char_is_whitespace(text@[len - trailing - 1]));
            } else if trailing > len - end {
                assert(char_is_whitespace(text@[end - 1]));
            }
        } else {
            assert(is_leading_whitespace(text@, len as int));
            if leading < len {
                assert(char_is_whitespace(text@[leading]));
            }
        }
    }
    if seen {
        owned(text.substring_char(start, end))
    } else {
        String::new()
    }
}

} // verus!
