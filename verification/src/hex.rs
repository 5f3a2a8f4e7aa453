//! Hexadecimal digits: the hex form of numbers and the `\x` and `\u` escapes.

use vstd::prelude::*;
use crate::text::chars_of;

verus! {

/// Whether `c` is one of `0-9`, `a-f`, `A-F`.
pub open spec fn is_hex_digit(c: char) -> bool {
    ('0' <= c <= '9') || ('a' <= c <= 'f') || ('A' <= c <= 'F')
}

/// The number a hexadecimal digit stands for; 0 for any other character.
pub open spec fn hex_digit_value(c: char) -> nat {
    if '0' <= c <= '9' {
        (c as u32 - '0' as u32) as nat
    } else if 'a' <= c <= 'f' {
        (c as u32 - 'a' as u32 + 10) as nat
    } else if 'A' <= c <= 'F' {
        (c as u32 - 'A' as u32 + 10) as nat
    } else {
        0
    }
}

/// Whether every character of `s` is a hexadecimal digit.
pub open spec fn all_hex_digits(s: Seq<char>) -> bool {
    forall|i: int| 0 <= i < s.len() ==> is_hex_digit(#[trigger] s[i])
}

/// The number that `s` writes in base 16, most significant digit first,
/// however large it is.
pub open spec fn hex_value(s: Seq<char>) -> nat
    decreases s.len(),
{
    if s.len() == 0 {
        0
    } else {
        16 * hex_value(s.drop_last()) + hex_digit_value(s.last())
    }
}

/// What a run of hexadecimal digits decodes to: the low 32 bits of its
/// value. Text that is empty, or holds anything but hexadecimal digits,
/// decodes to nothing.
pub open spec fn hex_u32(s: Seq<char>) -> Option<u32> {
    if s.len() > 0 && all_hex_digits(s) {
        Some((hex_value(s) % 0x1_0000_0000) as u32)
    } else {
        None
    }
}

/// Whether `s` has the shape of a hexadecimal number: `0x` or `0X`, and at
/// least one character after it.
pub open spec fn has_hex_prefix(s: Seq<char>) -> bool {
    s.len() > 2 && s[0] == '0' && (s[1] == 'x' || s[1] == 'X')
}

/// The value of one hexadecimal digit, or `None` for another character.
pub fn hex_digit(c: char) -> (r: Option<u32>)
    ensures
        r is Some <==> is_hex_digit(c),
        r matches Some(d) ==> d == hex_digit_value(c) && d < 16,
{
    if '0' <= c && c <= '9' {
        Some(c as u32 - '0' as u32)
    } else if 'a' <= c && c <= 'f' {
        Some(c as u32 - 'a' as u32 + 10)
    } else if 'A' <= c && c <= 'F' {
        Some(c as u32 - 'A' as u32 + 10)
    } else {
        None
    }
}

/// Decodes the hexadecimal digits that `v` holds from `start` on.
pub(crate) fn hex_digits_from(v: &Vec<char>, start: usize) -> (r: Option<u32>)
    requires
        start <= v.len(),
    ensures
        r == hex_u32(v@.skip(start as int)),
{
    let ghost s = v@.skip(start as int);
    if start == v.len() {
        return None;
    }
    let mut acc: u64 = 0;
    let mut i: usize = start;
    while i < v.len()
        invariant
            start <= i <= v.len(),
            s == v@.skip(start as int),
            all_hex_digits(s.take(i - start)),
            acc == hex_value(s.take(i - start)) % 0x1_0000_0000,
        decreases v.len() - i,
    {
        let ghost before = s.take(i - start);
        let ghost after = s.take(i - start + 1);
        assert(after.drop_last() == before);
        assert(after.last() == v@[i as int]);
        match hex_digit(v[i]) {
            None => {
                assert(!is_hex_digit(s[i - start]));
                return None;
            },
            Some(d) => {
                assert((16 * hex_value(before) + d) % 0x1_0000_0000 == (16 * (hex_value(before)
                    % 0x1_0000_0000) + d) % 0x1_0000_0000);
                acc = (acc * 16 + d as u64) % 0x1_0000_0000;
            },
        }
        i += 1;
    }
    assert(s.take(v.len() - start) == s);
    Some(acc as u32)
}

/// Decodes a run of hexadecimal digits to a 32-bit number, keeping the low
/// 32 bits where the digits write a larger one. Returns `None` where `s` is
/// empty or holds anything but hexadecimal digits.
pub fn parse_hex(s: &str) -> (r: Option<u32>)
    ensures
        r == hex_u32(s@),
{
    let v = chars_of(s);
    assert(v@.skip(0) == v@);
    hex_digits_from(&v, 0)
}

/// Whether `s` starts with `0x` or `0X` and goes on after that.
pub fn is_hex_literal(s: &str) -> (r: bool)
    ensures
        r == has_hex_prefix(s@),
{
    let v = chars_of(s);
    v.len() > 2 && v[0] == '0' && (v[1] == 'x' || v[1] == 'X')
}

} // verus!
