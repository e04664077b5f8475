//! A hex color parser: `#RRGGBB` into its three channel values.

use vstd::prelude::*;

use crate::text::{chars_to_string_range, to_chars};

verus! {

/// A color as its red, green and blue channels.
#[derive(Debug, PartialEq, Eq, Clone, Copy)]
pub struct Color {
    pub red: u8,
    pub green: u8,
    pub blue: u8,
}

/// An ASCII hexadecimal digit, either case.
pub open spec fn spec_is_hex_digit(c: char) -> bool {
    ('0' <= c && c <= '9') || ('a' <= c && c <= 'f') || ('A' <= c && c <= 'F')
}

/// The value of one hexadecimal digit.
pub open spec fn hex_val(c: char) -> int {
    if '0' <= c && c <= '9' {
        c as int - '0' as int
    } else if 'a' <= c && c <= 'f' {
        c as int - 'a' as int + 10
    } else if 'A' <= c && c <= 'F' {
        c as int - 'A' as int + 10
    } else {
        0
    }
}

/// Whether a character is a hexadecimal digit.
pub fn is_hex_digit(c: char) -> (r: bool)
    ensures
        r == spec_is_hex_digit(c),
{
    ('0' <= c && c <= '9') || ('a' <= c && c <= 'f') || ('A' <= c && c <= 'F')
}

/// The value of the hexadecimal digits `s[i..j]`, most significant first.
pub open spec fn hex_value(s: Seq<char>, i: int, j: int) -> int
    decreases j - i,
{
    if i >= j {
        0
    } else {
        hex_value(s, i, j - 1) * 16 + hex_val(s[j - 1])
    }
}

/// One byte written as exactly two hexadecimal digits.
pub open spec fn sp_hex_primary(s: Seq<char>, i: int) -> Option<(int, u8)> {
    if 0 <= i && i + 2 <= s.len() && spec_is_hex_digit(s[i]) && spec_is_hex_digit(s[i + 1]) {
        Some((i + 2, (hex_val(s[i]) * 16 + hex_val(s[i + 1])) as u8))
    } else {
        None
    }
}

/// The whole input read as hexadecimal digits; `None` when the input is
/// empty, holds a non-digit, or exceeds one byte.
pub fn from_hex(input: &str) -> (r: Option<u8>)
    ensures
        r matches Some(v) ==> input@.len() > 0 && (forall|k: int|
            0 <= k < input@.len() ==> spec_is_hex_digit(input@[k])) && hex_value(
            input@,
            0,
            input@.len() as int,
        ) == v,
        r is None ==> !(input@.len() > 0 && (forall|k: int|
            0 <= k < input@.len() ==> spec_is_hex_digit(input@[k])) && hex_value(
            input@,
            0,
            input@.len() as int,
        ) <= 255),
{
    let s = to_chars(input);
    let v = s.as_slice();
    if v.len() == 0 {
        return None;
    }
    let mut acc: u32 = 0;
    let mut k: usize = 0;
    while k < v.len()
        invariant
            v@ == input@,
            k <= v@.len(),
            forall|q: int| 0 <= q < k ==> spec_is_hex_digit(v@[q]),
            acc == hex_value(v@, 0, k as int),
            acc <= 255,
        decreases v@.len() - k,
    {
        let c = v[k];
        if !is_hex_digit(c) {
            proof {
                assert(!spec_is_hex_digit(input@[k as int]));
            }
            return None;
        }
        let d: u32 = if '0' <= c && c <= '9' {
            (c as u32) - 48
        } else if 'a' <= c && c <= 'f' {
            (c as u32) - 87
        } else {
            (c as u32) - 55
        };
        acc = acc * 16 + d;
        k += 1;
        if acc > 255 {
            proof {
                lemma_hex_value_mono(v@, 0, k as int, v@.len() as int);
            }
            return None;
        }
    }
    Some(acc as u8)
}

/// The value of a hex string is never negative.
proof fn lemma_hex_value_nonneg(s: Seq<char>, i: int, j: int)
    ensures
        hex_value(s, i, j) >= 0,
    decreases j - i,
{
    if i < j {
        lemma_hex_value_nonneg(s, i, j - 1);
    }
}

/// Appending digits never decreases the value of a hex string.
proof fn lemma_hex_value_mono(s: Seq<char>, i: int, k: int, j: int)
    requires
        i <= k <= j,
    ensures
        hex_value(s, i, j) >= hex_value(s, i, k),
    decreases j - k,
{
    if k < j {
        lemma_hex_value_nonneg(s, i, k);
        lemma_hex_value_mono(s, i, k + 1, j);
        assert(hex_value(s, i, k + 1) == hex_value(s, i, k) * 16 + hex_val(s[k]));
    }
}

/// Parses exactly two hexadecimal digits into a byte, as
/// [`sp_hex_primary`] describes.
pub fn hex_primary(input: &str) -> (r: Result<(String, u8), String>)
    ensures
        r matches Ok(p) ==> sp_hex_primary(input@, 0) matches Some(q) && p.0@ == input@.skip(
            q.0,
        ) && p.1 == q.1,
        r is Err <==> sp_hex_primary(input@, 0) is None,
        r matches Err(e) ==> e@ == input@,
{
    let s = to_chars(input);
    let v = s.as_slice();
    if v.len() >= 2 && is_hex_digit(v[0]) && is_hex_digit(v[1]) {
        let hi = hex_digit_value(v[0]);
        let lo = hex_digit_value(v[1]);
        let rem = chars_to_string_range(v, 2, v.len());
        proof {
            assert(v@.subrange(2, v@.len() as int) =~= input@.skip(2));
        }
        Ok((rem, hi * 16 + lo))
    } else {
        Err(input.to_owned())
    }
}

/// The value of one hexadecimal digit, as [`hex_val`] describes.
fn hex_digit_value(c: char) -> (r: u8)
    requires
        spec_is_hex_digit(c),
    ensures
        r == hex_val(c),
        r < 16,
{
    if '0' <= c && c <= '9' {
        ((c as u32) - 48) as u8
    } else if 'a' <= c && c <= 'f' {
        ((c as u32) - 87) as u8
    } else {
        ((c as u32) - 55) as u8
    }
}

/// A `#RRGGBB` color at the start of the input: a hash sign and three
/// two-digit channels, red, green, blue.
pub open spec fn sp_hex_color(s: Seq<char>) -> Option<(int, Color)> {
    if s.len() > 0 && s[0] == '#' {
        match sp_hex_primary(s, 1) {
            None => None,
            Some((a, red)) => match sp_hex_primary(s, a) {
                None => None,
                Some((b, green)) => match sp_hex_primary(s, b) {
                    None => None,
                    Some((c, blue)) => Some((c, Color { red, green, blue })),
                },
            },
        }
    } else {
        None
    }
}

/// Parses a `#RRGGBB` color, as [`sp_hex_color`] describes.
pub fn hex_color(input: &str) -> (r: Result<(String, Color), String>)
    ensures
        r matches Ok(p) ==> sp_hex_color(input@) matches Some(q) && p.0@ == input@.skip(q.0)
            && p.1 == q.1,
        r is Err <==> sp_hex_color(input@) is None,
        r matches Err(e) ==> e@ == input@,
{
    let s = to_chars(input);
    let v = s.as_slice();
    if v.len() == 0 || v[0] != '#' {
        return Err(input.to_owned());
    }
    if !(v.len() >= 3 && is_hex_digit(v[1]) && is_hex_digit(v[2])) {
        return Err(input.to_owned());
    }
    let red = hex_digit_value(v[1]) * 16 + hex_digit_value(v[2]);
    if !(v.len() >= 5 && is_hex_digit(v[3]) && is_hex_digit(v[4])) {
        return Err(input.to_owned());
    }
    let green = hex_digit_value(v[3]) * 16 + hex_digit_value(v[4]);
    if !(v.len() >= 7 && is_hex_digit(v[5]) && is_hex_digit(v[6])) {
        return Err(input.to_owned());
    }
    let blue = hex_digit_value(v[5]) * 16 + hex_digit_value(v[6]);
    let rem = chars_to_string_range(v, 7, v.len());
    proof {
        assert(v@.subrange(7, v@.len() as int) =~= input@.skip(7));
    }
    Ok((rem, Color { red, green, blue }))
}

} // verus!
