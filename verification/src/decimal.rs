//! Signed decimal integers as they are written in text: an optional `+` or
//! `-`, then one or more digits, nothing before, between or after.

use vstd::prelude::*;
use vstd::utf8::is_ascii_chars;

use crate::text::chars_of;

verus! {

/// Whether `c` is one of `0` to `9`.
pub open spec fn is_digit(c: char) -> bool {
    '0' <= c && c <= '9'
}

/// The number a digit stands for.
pub open spec fn digit_value(c: char) -> int {
    c as int - '0' as int
}

/// Whether `s` holds digits only. The empty text does.
pub open spec fn all_digits(s: Seq<char>) -> bool {
    forall|i: int| 0 <= i < s.len() ==> is_digit(#[trigger] s[i])
}

/// The number that the digits of `s` denote in base ten, the empty text
/// denoting zero.
pub open spec fn digits_value(s: Seq<char>) -> int
    decreases s.len(),
{
    if s.len() == 0 {
        0
    } else {
        10 * digits_value(s.drop_last()) + digit_value(s.last())
    }
}

/// Whether `s` starts with a sign.
pub open spec fn has_sign(s: Seq<char>) -> bool {
    s.len() > 0 && (s[0] == '-' || s[0] == '+')
}

/// The integer that `s` denotes, if it is a signed decimal.
pub open spec fn signed_value(s: Seq<char>) -> Option<int> {
    let digits = if has_sign(s) {
        s.skip(1)
    } else {
        s
    };
    if digits.len() == 0 || !all_digits(digits) {
        None
    } else if has_sign(s) && s[0] == '-' {
        Some(-digits_value(digits))
    } else {
        Some(digits_value(digits))
    }
}

/// The `i32` that `s` denotes: there is one exactly when `s` is a signed
/// decimal whose value lies in the range of `i32`.
pub open spec fn i32_of(s: Seq<char>) -> Option<i32> {
    match signed_value(s) {
        Some(value) => if i32::MIN <= value <= i32::MAX {
            Some(value as i32)
        } else {
            None
        },
        None => None,
    }
}

/// The ten digits, in the order of their values.
pub const DIGITS: &'static str = "0123456789";

/// The digit that stands for `d`, for `d` from 0 to 9.
pub open spec fn digit_char(d: int) -> char {
    ((d + '0' as int) as u8) as char
}

/// The digits of a natural number, most significant first, with no zero in
/// front; zero is written as a single `0`.
pub open spec fn digits_of(n: nat) -> Seq<char>
    decreases n,
{
    if n < 10 {
        seq![digit_char(n as int)]
    } else {
        digits_of(n / 10).push(digit_char((n % 10) as int))
    }
}

/// An integer as text: its digits, behind a `-` if it is negative.
pub open spec fn text_of(value: int) -> Seq<char> {
    if value < 0 {
        seq!['-'] + digits_of((-value) as nat)
    } else {
        digits_of(value as nat)
    }
}

/// Digits denote a number that is not negative.
pub proof fn digits_value_is_natural(s: Seq<char>)
    requires
        all_digits(s),
    ensures
        digits_value(s) >= 0,
    decreases s.len(),
{
    if s.len() > 0 {
        digits_value_is_natural(s.drop_last());
    }
}

/// Writing more digits behind a number never makes it smaller.
pub proof fn digits_value_grows(s: Seq<char>, k: int)
    requires
        all_digits(s),
        0 <= k <= s.len(),
    ensures
        digits_value(s.take(k)) <= digits_value(s),
    decreases s.len(),
{
    if k < s.len() {
        digits_value_grows(s.drop_last(), k);
        digits_value_is_natural(s.drop_last());
        assert(s.drop_last().take(k) =~= s.take(k));
    } else {
        assert(s.take(k) =~= s);
    }
}

/// The digits written for a number are digits, at least one, and denote that
/// number.
pub proof fn digits_of_denotes(n: nat)
    ensures
        digits_of(n).len() >= 1,
        all_digits(digits_of(n)),
        digits_value(digits_of(n)) == n,
    decreases n,
{
    if n < 10 {
        let s = seq![digit_char(n as int)];
        assert(s.drop_last() =~= Seq::<char>::empty());
        assert(digits_value(s.drop_last()) == 0);
    } else {
        digits_of_denotes(n / 10);
        let shorter = digits_of(n / 10);
        let s = shorter.push(digit_char((n % 10) as int));
        assert(s.drop_last() =~= shorter);
    }
}

/// Text written for an integer reads back as that integer.
pub proof fn text_of_reads_back(value: int)
    ensures
        signed_value(text_of(value)) == Some(value),
{
    if value < 0 {
        let digits = digits_of((-value) as nat);
        digits_of_denotes((-value) as nat);
        assert(text_of(value).skip(1) =~= digits);
    } else {
        digits_of_denotes(value as nat);
        assert(is_digit(digits_of(value as nat)[0]));
    }
}

/// Text written for an `i32` reads back as that `i32`.
pub proof fn i32_text_reads_back(value: i32)
    ensures
        i32_of(text_of(value as int)) == Some(value),
{
    text_of_reads_back(value as int);
}

/// Reads a signed decimal `i32` from text.
pub fn parse_i32(text: &str) -> (parsed: Option<i32>)
    ensures
        parsed == i32_of(text@),
{
    let chars = chars_of(text);
    parse_i32_chars(chars.as_slice())
}

/// Reads a signed decimal `i32` from characters.
pub fn parse_i32_chars(text: &[char]) -> (parsed: Option<i32>)
    ensures
        parsed == i32_of(text@),
{
    let n = text.len();
    let negative = n > 0 && text[0] == '-';
    let start: usize = if n > 0 && (text[0] == '-' || text[0] == '+') {
        1
    } else {
        0
    };
    if start == n {
        return None;
    }
    let ghost digits = if has_sign(text@) {
        text@.skip(1)
    } else {
        text@
    };
    assert(digits =~= text@.subrange(start as int, n as int));
    let mut magnitude: i64 = 0;
    let mut i: usize = start;
    while i < n
        invariant
            start <= i <= n,
            n == text@.len(),
            digits == text@.subrange(start as int, n as int),
            digits == if has_sign(text@) {
                text@.skip(1)
            } else {
                text@
            },
            negative <==> has_sign(text@) && text@[0] == '-',
            all_digits(digits.take(i - start)),
            magnitude == digits_value(digits.take(i - start)),
            0 <= magnitude <= 0x8000_0000,
        decreases n - i,
    {
        let c = text[i];
        if !('0' <= c && c <= '9') {
            assert(!is_digit(digits[i - start]));
            return None;
        }
        let digit: i64 = (c as u32 - '0' as u32) as i64;
        let next: i64 = magnitude * 10 + digit;
        proof {
            let longer = digits.take(i + 1 - start);
            assert(longer.drop_last() =~= digits.take(i - start));
            assert(longer.last() == c);
            assert(next == digits_value(longer));
            assert forall|j: int| 0 <= j < longer.len() implies is_digit(#[trigger] longer[j]) by {
                if j < i - start {
                    assert(digits.take(i - start)[j] == longer[j]);
                }
            }
        }
        if next > 0x8000_0000 {
            proof {
                if all_digits(digits) {
                    digits_value_grows(digits, i + 1 - start);
                }
            }
            return None;
        }
        magnitude = next;
        i = i + 1;
    }
    assert(digits.take(n - start) =~= digits);
    if negative {
        Some((-magnitude) as i32)
    } else if magnitude <= 0x7fff_ffff {
        Some(magnitude as i32)
    } else {
        None
    }
}

/// The one-character text of the digit that stands for `d`.
fn digit_text(d: u32) -> (text: &'static str)
    requires
        d < 10,
    ensures
        text@ == seq![digit_char(d as int)],
{
    proof {
        reveal_strlit("0123456789");
    }
    assert(is_ascii_chars(DIGITS@));
    let text = DIGITS.substring_ascii(d as usize, d as usize + 1);
    assert(text@ =~= seq![digit_char(d as int)]);
    text
}

/// Writes the digits of `n` behind what `out` holds.
fn push_digits(out: &mut String, n: u32)
    ensures
        final(out)@ == old(out)@ + digits_of(n as nat),
    decreases n,
{
    if n >= 10 {
        push_digits(out, n / 10);
    }
    out.append(digit_text(n % 10));
}

/// Writes `value` behind what `out` holds, as [`text_of`] spells it.
pub fn push_i32(out: &mut String, value: i32)
    ensures
        final(out)@ == old(out)@ + text_of(value as int),
{
    let wide: i64 = value as i64;
    if wide < 0 {
        out.append("-");
        proof {
            reveal_strlit("-");
            assert("-"@ =~= seq!['-']);
        }
        push_digits(out, (-wide) as u32);
    } else {
        push_digits(out, wide as u32);
    }
}

} // verus!
