//! Decimal numbers written as text.
//!
//! The accepted grammar is that of Rust's integers: an optional sign, then
//! one or more ASCII digits and nothing else. A signed number may begin
//! with `+` or `-`, an unsigned one only with `+`. A number that does not
//! fit its type is no number.

use vstd::prelude::*;
use vstd::string::*;
use vstd::utf8::{encode_utf8, is_ascii_chars, is_ascii_chars_encode_utf8};

verus! {

/// Whether `b` is one of the ASCII digits `0` to `9`.
pub open spec fn is_digit(b: u8) -> bool {
    0x30 <= b <= 0x39
}

/// Whether every byte of `s` is an ASCII digit.
pub open spec fn all_digits(s: Seq<u8>) -> bool {
    forall|i: int| 0 <= i < s.len() ==> is_digit(#[trigger] s[i])
}

/// The number that the digits of `s` write in base ten. Meant for
/// sequences of digits; the empty sequence writes 0.
pub open spec fn decimal_value(s: Seq<u8>) -> nat
    decreases s.len(),
{
    if s.len() == 0 {
        0
    } else {
        (decimal_value(s.drop_last()) * 10 + (s.last() - 0x30)) as nat
    }
}

/// The digits of a number text: what follows the sign, if one is allowed
/// and present.
pub open spec fn digits_of(s: Seq<u8>, minus_allowed: bool) -> Seq<u8> {
    if s.len() > 0 && (s[0] == 0x2b || (minus_allowed && s[0] == 0x2d)) {
        s.subrange(1, s.len() as int)
    } else {
        s
    }
}

/// The integer that `s` writes, of any size, or `None` where `s` is not
/// made of an optional sign and at least one digit.
pub open spec fn text_value(s: Seq<u8>, minus_allowed: bool) -> Option<int> {
    let digits = digits_of(s, minus_allowed);
    if digits.len() == 0 || !all_digits(digits) {
        None
    } else if minus_allowed && s[0] == 0x2d {
        Some(-(decimal_value(digits) as int))
    } else {
        Some(decimal_value(digits) as int)
    }
}

/// What `s` parses to as an `i32`.
pub open spec fn parse_i32_spec(s: Seq<u8>) -> Option<i32> {
    match text_value(s, true) {
        Some(v) => if i32::MIN <= v <= i32::MAX {
            Some(v as i32)
        } else {
            None
        },
        None => None,
    }
}

/// What `s` parses to as a `usize`.
pub open spec fn parse_usize_spec(s: Seq<u8>) -> Option<usize> {
    match text_value(s, false) {
        Some(v) => if v <= usize::MAX {
            Some(v as usize)
        } else {
            None
        },
        None => None,
    }
}

/// A number never gets smaller by writing more digits behind it.
pub proof fn lemma_decimal_value_grows(s: Seq<u8>, n: int)
    requires
        0 <= n <= s.len(),
        all_digits(s),
    ensures
        decimal_value(s.subrange(0, n)) <= decimal_value(s),
    decreases s.len() - n,
{
    if n == s.len() {
        assert(s.subrange(0, n) == s);
    } else {
        let longer = s.subrange(0, n + 1);
        assert(longer.drop_last() == s.subrange(0, n));
        assert(is_digit(longer.last()));
        lemma_decimal_value_grows(s, n + 1);
    }
}

/// Reads the digits of `s` from index `from` on. The result is the number
/// they write, where there is at least one byte, each is a digit, and the
/// number is at most `limit`.
fn read_digits(s: &[u8], from: usize, limit: u64) -> (r: Option<u64>)
    requires
        from <= s@.len(),
    ensures
        match r {
            Some(v) => {
                &&& from < s@.len()
                &&& all_digits(s@.subrange(from as int, s@.len() as int))
                &&& v == decimal_value(s@.subrange(from as int, s@.len() as int))
                &&& v <= limit
            },
            None => {
                ||| from == s@.len()
                ||| !all_digits(s@.subrange(from as int, s@.len() as int))
                ||| decimal_value(s@.subrange(from as int, s@.len() as int)) > limit
            },
        },
{
    let ghost digits = s@.subrange(from as int, s@.len() as int);
    if from == s.len() {
        return None;
    }
    let mut value: u64 = 0;
    let mut i: usize = from;
    while i < s.len()
        invariant
            from <= i <= s@.len(),
            digits == s@.subrange(from as int, s@.len() as int),
            all_digits(digits.subrange(0, i - from)),
            value == decimal_value(digits.subrange(0, i - from)),
            value <= limit,
        decreases s@.len() - i,
    {
        let b: u8 = s[i];
        let ghost seen = digits.subrange(0, i - from);
        let ghost next = digits.subrange(0, i + 1 - from);
        assert(next.drop_last() == seen);
        assert(next.last() == b);
        if b < 0x30 || b > 0x39 {
            assert(!is_digit(digits[i - from]));
            return None;
        }
        let d: u64 = (b - 0x30) as u64;
        assert(all_digits(next)) by {
            assert forall|k: int| 0 <= k < next.len() implies is_digit(#[trigger] next[k]) by {
                if k < seen.len() {
                    assert(next[k] == seen[k]);
                }
            }
        }
        if d > limit || value > (limit - d) / 10 {
            proof {
                assert(decimal_value(next) == value * 10 + d);
                assert(decimal_value(next) > limit);
                if all_digits(digits) {
                    lemma_decimal_value_grows(digits, i + 1 - from);
                }
            }
            return None;
        }
        value = value * 10 + d;
        i = i + 1;
    }
    assert(digits.subrange(0, i - from) == digits);
    Some(value)
}

/// Parses a signed decimal number that fits an `i32`.
pub fn parse_i32(s: &str) -> (r: Option<i32>)
    ensures
        r == parse_i32_spec(s.spec_bytes()),
{
    let bytes = s.as_bytes();
    let negative = bytes.len() > 0 && bytes[0] == 0x2d;
    let signed = bytes.len() > 0 && (bytes[0] == 0x2b || bytes[0] == 0x2d);
    let from: usize = if signed { 1 } else { 0 };
    let limit: u64 = if negative { 0x8000_0000 } else { 0x7fff_ffff };
    assert(digits_of(bytes@, true) == bytes@.subrange(from as int, bytes@.len() as int));
    match read_digits(bytes, from, limit) {
        Some(v) => {
            if negative {
                let wide: i64 = -(v as i64);
                Some(wide as i32)
            } else {
                Some(v as i32)
            }
        },
        None => None,
    }
}

/// Parses an unsigned decimal number that fits a `usize`.
pub fn parse_usize(s: &str) -> (r: Option<usize>)
    ensures
        r == parse_usize_spec(s.spec_bytes()),
{
    let bytes = s.as_bytes();
    let signed = bytes.len() > 0 && bytes[0] == 0x2b;
    let from: usize = if signed { 1 } else { 0 };
    let limit: u64 = usize::MAX as u64;
    assert(digits_of(bytes@, false) == bytes@.subrange(from as int, bytes@.len() as int));
    match read_digits(bytes, from, limit) {
        Some(v) => Some(v as usize),
        None => None,
    }
}

/// The digit that writes a number below ten.
pub open spec fn digit_text(d: int) -> Seq<char> {
    if d == 0 {
        "0"@
    } else if d == 1 {
        "1"@
    } else if d == 2 {
        "2"@
    } else if d == 3 {
        "3"@
    } else if d == 4 {
        "4"@
    } else if d == 5 {
        "5"@
    } else if d == 6 {
        "6"@
    } else if d == 7 {
        "7"@
    } else if d == 8 {
        "8"@
    } else {
        "9"@
    }
}

/// A natural number written in base ten, without leading zeros.
pub open spec fn decimal_text(n: nat) -> Seq<char>
    decreases n,
{
    if n < 10 {
        digit_text(n as int)
    } else {
        decimal_text(n / 10) + digit_text((n % 10) as int)
    }
}

/// A whole number written in base ten, with a minus sign where it is
/// negative.
pub open spec fn signed_decimal_text(n: int) -> Seq<char> {
    if n < 0 {
        "-"@ + decimal_text((-n) as nat)
    } else {
        decimal_text(n as nat)
    }
}

/// The digit that writes a number below ten.
fn digit_str(d: u64) -> (r: &'static str)
    requires
        d < 10,
    ensures
        r@ == digit_text(d as int),
{
    if d == 0 {
        "0"
    } else if d == 1 {
        "1"
    } else if d == 2 {
        "2"
    } else if d == 3 {
        "3"
    } else if d == 4 {
        "4"
    } else if d == 5 {
        "5"
    } else if d == 6 {
        "6"
    } else if d == 7 {
        "7"
    } else if d == 8 {
        "8"
    } else {
        "9"
    }
}

/// Writes a number in base ten behind a text.
pub fn append_decimal(text: &mut String, n: u64)
    ensures
        final(text)@ == old(text)@ + decimal_text(n as nat),
    decreases n,
{
    if n >= 10 {
        append_decimal(text, n / 10);
    }
    text.append(digit_str(n % 10));
}

/// Writes a `usize` in base ten.
pub fn format_usize(n: usize) -> (r: String)
    ensures
        r@ == decimal_text(n as nat),
{
    let mut r = String::new();
    append_decimal(&mut r, n as u64);
    r
}

/// Writes an `i32` in base ten.
pub fn format_i32(n: i32) -> (r: String)
    ensures
        r@ == signed_decimal_text(n as int),
{
    let mut r = String::new();
    if n < 0 {
        r.append("-");
        let magnitude: u64 = (-(n as i64)) as u64;
        append_decimal(&mut r, magnitude);
    } else {
        append_decimal(&mut r, n as u64);
    }
    r
}

/// A number written in base ten is made of digits alone, and these
/// digits write the number.
pub proof fn lemma_decimal_text_is_read_back(n: nat)
    ensures
        decimal_text(n).len() >= 1,
        is_ascii_chars(decimal_text(n)),
        all_digits(encode_utf8(decimal_text(n))),
        decimal_value(encode_utf8(decimal_text(n))) == n,
    decreases n,
{
    reveal_strlit("0");
    reveal_strlit("1");
    reveal_strlit("2");
    reveal_strlit("3");
    reveal_strlit("4");
    reveal_strlit("5");
    reveal_strlit("6");
    reveal_strlit("7");
    reveal_strlit("8");
    reveal_strlit("9");
    let last = digit_text((n % 10) as int);
    assert(last.len() == 1 && last[0] as u8 == 0x30 + n % 10 && last[0] <= '\u{7f}');
    let text = decimal_text(n);
    if n < 10 {
        assert(text == last);
        assert(is_ascii_chars(text));
        is_ascii_chars_encode_utf8(text);
        let bytes = encode_utf8(text);
        assert(bytes.len() == 1 && bytes[0] == text[0] as u8);
        assert(bytes.drop_last().len() == 0);
        assert(decimal_value(bytes) == n) by {
            reveal_with_fuel(decimal_value, 2);
        }
    } else {
        let head = decimal_text(n / 10);
        lemma_decimal_text_is_read_back(n / 10);
        assert(text == head + last);
        assert(is_ascii_chars(text)) by {
            assert forall|i: int| 0 <= i < text.len() implies '\0' <= #[trigger] text[i]
                <= '\u{7f}' by {
                if i < head.len() {
                    assert(text[i] == head[i]);
                } else {
                    assert(text[i] == last[0]);
                }
            }
        }
        is_ascii_chars_encode_utf8(text);
        is_ascii_chars_encode_utf8(head);
        let bytes = encode_utf8(text);
        let head_bytes = encode_utf8(head);
        assert(bytes.drop_last() =~= head_bytes) by {
            assert forall|i: int| 0 <= i < head_bytes.len() implies bytes.drop_last()[i]
                == head_bytes[i] by {
                assert(bytes[i] == text[i] as u8);
                assert(head_bytes[i] == head[i] as u8);
                assert(text[i] == head[i]);
            }
        }
        assert(bytes.last() == text[text.len() - 1] as u8);
        assert(text[text.len() - 1] == last[0]);
        assert(all_digits(bytes)) by {
            assert forall|i: int| 0 <= i < bytes.len() implies is_digit(#[trigger] bytes[i]) by {
                if i < head_bytes.len() {
                    assert(bytes[i] == bytes.drop_last()[i]);
                    assert(is_digit(head_bytes[i]));
                }
            }
        }
    }
}

/// Reading gives back what writing wrote: the text of an `i32` in base
/// ten parses to that number.
pub proof fn lemma_written_number_is_read_back(n: i32)
    ensures
        parse_i32_spec(encode_utf8(signed_decimal_text(n as int))) == Some(n),
{
    reveal_strlit("-");
    let magnitude: nat = if n < 0 {
        (-n) as nat
    } else {
        n as nat
    };
    lemma_decimal_text_is_read_back(magnitude);
    let digits_text = decimal_text(magnitude);
    let digits = encode_utf8(digits_text);
    is_ascii_chars_encode_utf8(digits_text);
    if n < 0 {
        let text = "-"@ + digits_text;
        assert(text == signed_decimal_text(n as int));
        assert("-"@.len() == 1 && "-"@[0] == '-');
        assert(is_ascii_chars(text)) by {
            assert forall|i: int| 0 <= i < text.len() implies '\0' <= #[trigger] text[i]
                <= '\u{7f}' by {
                if i >= 1 {
                    assert(text[i] == digits_text[i - 1]);
                }
            }
        }
        is_ascii_chars_encode_utf8(text);
        let bytes = encode_utf8(text);
        assert(bytes[0] == text[0] as u8);
        assert(bytes[0] == 0x2d);
        assert(bytes.subrange(1, bytes.len() as int) =~= digits) by {
            assert forall|i: int| 0 <= i < digits.len() implies bytes.subrange(
                1,
                bytes.len() as int,
            )[i] == digits[i] by {
                assert(bytes[i + 1] == text[i + 1] as u8);
                assert(digits[i] == digits_text[i] as u8);
                assert(text[i + 1] == digits_text[i]);
            }
        }
        assert(digits_of(bytes, true) == digits);
    } else {
        assert(digits_text == signed_decimal_text(n as int));
        assert(is_digit(digits[0]));
        assert(digits_of(digits, true) == digits);
    }
}

} // verus!
