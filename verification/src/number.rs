//! Number nodes: the special words, the hexadecimal form and decimal
//! literals.
//!
//! No floating-point arithmetic happens here. A decoded number says which of
//! the forms the text has and carries what is exact about it: the integer
//! that a hexadecimal literal writes, or the text of a decimal literal that
//! is known to be well-formed. Widening to a floating-point number is left to
//! the caller.

use vstd::prelude::*;
use crate::error::{DecodeFault, Error};
use crate::hex::{has_hex_prefix, hex_digits_from, hex_u32};
use crate::text::{chars_of, same_text};

verus! {

/// A decoded number.
#[derive(Debug, PartialEq, Eq)]
pub enum NumberValue {
    /// Positive infinity.
    Infinity,
    /// Negative infinity.
    NegInfinity,
    /// Not a number. It has no sign.
    NaN,
    /// The value of a hexadecimal literal.
    Hex(u32),
    /// A decimal literal, sign and exponent included, as it was written.
    Decimal(String),
}

/// What a [`NumberValue`] stands for.
pub enum NumberView {
    Infinity,
    NegInfinity,
    NaN,
    Hex(u32),
    Decimal(Seq<char>),
}

impl View for NumberValue {
    type V = NumberView;

    open spec fn view(&self) -> NumberView {
        match self {
            NumberValue::Infinity => NumberView::Infinity,
            NumberValue::NegInfinity => NumberView::NegInfinity,
            NumberValue::NaN => NumberView::NaN,
            NumberValue::Hex(n) => NumberView::Hex(*n),
            NumberValue::Decimal(text) => NumberView::Decimal(text@),
        }
    }
}

/// Whether `c` is one of `0-9`.
pub open spec fn is_digit(c: char) -> bool {
    '0' <= c <= '9'
}

/// Whether `c` is `+` or `-`.
pub open spec fn is_sign(c: char) -> bool {
    c == '+' || c == '-'
}

/// The code point of `c`, or of its lower-case form if `c` is one of `A-Z`.
pub open spec fn lower_code(c: char) -> u32 {
    if 'A' <= c <= 'Z' {
        (c as u32 + 32) as u32
    } else {
        c as u32
    }
}

/// Whether `s` spells the lower-case `word`, in whatever mix of upper and
/// lower case.
pub open spec fn spells(s: Seq<char>, word: Seq<char>) -> bool {
    &&& s.len() == word.len()
    &&& forall|i: int| 0 <= i < s.len() ==> lower_code(#[trigger] s[i]) == word[i] as u32
}

/// The first position at or after `from` that holds no decimal digit: the
/// end of the run of digits that starts at `from`.
pub open spec fn digits_end(s: Seq<char>, from: int) -> int
    decreases s.len() - from,
{
    if 0 <= from < s.len() && is_digit(s[from]) {
        digits_end(s, from + 1)
    } else {
        from
    }
}

/// 1 if `s` starts with a sign, else 0.
pub open spec fn sign_len(s: Seq<char>) -> int {
    if s.len() > 0 && is_sign(s[0]) {
        1
    } else {
        0
    }
}

/// Whether `s` from `start` to its end is an unsigned decimal number: digits,
/// then optionally a point and more digits, with at least one digit on one
/// side of the point; then optionally an exponent, which is `e` or `E`, an
/// optional sign and at least one digit.
pub open spec fn is_decimal_at(s: Seq<char>, start: int) -> bool {
    let int_end = digits_end(s, start);
    let has_point = int_end < s.len() && s[int_end] == '.';
    let frac_start = if has_point { int_end + 1 } else { int_end };
    let frac_end = digits_end(s, frac_start);
    let has_exp = frac_end < s.len() && (s[frac_end] == 'e' || s[frac_end] == 'E');
    let exp_start = if frac_end + 1 < s.len() && is_sign(s[frac_end + 1]) {
        frac_end + 2
    } else {
        frac_end + 1
    };
    let exp_end = digits_end(s, exp_start);
    &&& int_end > start || frac_end > frac_start
    &&& if has_exp {
        exp_start < exp_end && exp_end == s.len()
    } else {
        frac_end == s.len()
    }
}

/// What a floating-point literal decodes to. After an optional sign stands
/// `inf`, `infinity` or `nan` in any mix of cases, or an unsigned decimal
/// number. The sign of a `nan` is dropped. Any other text is no literal.
pub open spec fn float_literal_of(s: Seq<char>) -> Result<NumberView, Error> {
    let start = sign_len(s);
    let body = s.skip(start);
    if spells(body, "inf"@) || spells(body, "infinity"@) {
        if s[0] == '-' {
            Ok(NumberView::NegInfinity)
        } else {
            Ok(NumberView::Infinity)
        }
    } else if spells(body, "nan"@) {
        Ok(NumberView::NaN)
    } else if is_decimal_at(s, start) {
        Ok(NumberView::Decimal(s))
    } else {
        Err(Error::DecodeError(DecodeFault::InvalidLiteral))
    }
}

/// What the text of a number node decodes to. In this order: `Infinity` and
/// `-Infinity`; `NaN` and `-NaN`, which are the same value; text that starts
/// with `0x` or `0X`, whose remainder is read as hexadecimal digits; and
/// floating-point literals.
pub open spec fn number_of(s: Seq<char>) -> Result<NumberView, Error> {
    if s == "Infinity"@ {
        Ok(NumberView::Infinity)
    } else if s == "-Infinity"@ {
        Ok(NumberView::NegInfinity)
    } else if s == "NaN"@ || s == "-NaN"@ {
        Ok(NumberView::NaN)
    } else if has_hex_prefix(s) {
        match hex_u32(s.skip(2)) {
            Some(n) => Ok(NumberView::Hex(n)),
            None => Err(Error::DecodeError(DecodeFault::InvalidLiteral)),
        }
    } else {
        float_literal_of(s)
    }
}

/// The view of a decoded number, or the error as it is.
pub open spec fn number_result_view(r: Result<NumberValue, Error>) -> Result<NumberView, Error> {
    match r {
        Ok(n) => Ok(n@),
        Err(e) => Err(e),
    }
}

/// The end of the run of decimal digits that starts at `from`.
fn scan_digits(v: &Vec<char>, from: usize) -> (end: usize)
    requires
        from <= v.len(),
    ensures
        end == digits_end(v@, from as int),
        from <= end <= v.len(),
{
    let mut i: usize = from;
    while i < v.len() && '0' <= v[i] && v[i] <= '9'
        invariant
            from <= i <= v.len(),
            digits_end(v@, from as int) == digits_end(v@, i as int),
        decreases v.len() - i,
    {
        i += 1;
    }
    i
}

/// Whether `v` from `start` to its end is an unsigned decimal number.
fn is_decimal_from(v: &Vec<char>, start: usize) -> (r: bool)
    requires
        start <= v.len(),
    ensures
        r == is_decimal_at(v@, start as int),
{
    let int_end = scan_digits(v, start);
    let has_point = int_end < v.len() && v[int_end] == '.';
    let frac_start: usize = if has_point { int_end + 1 } else { int_end };
    let frac_end = scan_digits(v, frac_start);
    if !(int_end > start || frac_end > frac_start) {
        return false;
    }
    if frac_end < v.len() && (v[frac_end] == 'e' || v[frac_end] == 'E') {
        let exp_start: usize = if frac_end + 1 < v.len() && (v[frac_end + 1] == '+' || v[frac_end
            + 1] == '-') {
            frac_end + 2
        } else {
            frac_end + 1
        };
        let exp_end = scan_digits(v, exp_start);
        exp_start < exp_end && exp_end == v.len()
    } else {
        frac_end == v.len()
    }
}

/// Whether `v` from `start` to its end spells `word`, which is in lower
/// case, in whatever mix of cases.
fn spells_from(v: &Vec<char>, start: usize, word: &str) -> (r: bool)
    requires
        start <= v.len(),
    ensures
        r == spells(v@.skip(start as int), word@),
{
    let w = chars_of(word);
    let ghost body = v@.skip(start as int);
    if v.len() - start != w.len() {
        return false;
    }
    let mut i: usize = 0;
    while i < w.len()
        invariant
            start <= v.len(),
            v.len() - start == w.len(),
            i <= w.len(),
            body == v@.skip(start as int),
            w@ == word@,
            forall|j: int| 0 <= j < i ==> lower_code(#[trigger] body[j]) == w@[j] as u32,
        decreases w.len() - i,
    {
        let c = v[start + i];
        assert(c == body[i as int]);
        let code: u32 = if 'A' <= c && c <= 'Z' { c as u32 + 32 } else { c as u32 };
        if code != w[i] as u32 {
            return false;
        }
        i += 1;
    }
    true
}

/// Decodes a floating-point literal: `v` holds the characters of `text`.
fn parse_float_literal(v: &Vec<char>, text: &str) -> (r: Result<NumberValue, Error>)
    requires
        v@ == text@,
    ensures
        number_result_view(r) == float_literal_of(text@),
{
    let start: usize = if v.len() > 0 && (v[0] == '+' || v[0] == '-') { 1 } else { 0 };
    if spells_from(v, start, "inf") || spells_from(v, start, "infinity") {
        proof {
            reveal_strlit("inf");
            reveal_strlit("infinity");
        }
        if v[0] == '-' {
            Ok(NumberValue::NegInfinity)
        } else {
            Ok(NumberValue::Infinity)
        }
    } else if spells_from(v, start, "nan") {
        Ok(NumberValue::NaN)
    } else if is_decimal_from(v, start) {
        Ok(NumberValue::Decimal(text.to_owned()))
    } else {
        Err(Error::DecodeError(DecodeFault::InvalidLiteral))
    }
}

/// Decodes the text of a number node.
///
/// Succeeds on `Infinity`, `-Infinity`, `NaN`, `-NaN`, on `0x` or `0X`
/// followed by hexadecimal digits, and on every floating-point literal; the
/// result says which it was. A hexadecimal literal that does not fit 32 bits
/// keeps its low 32 bits. All other text is an invalid literal.
pub fn parse_number(text: &str) -> (r: Result<NumberValue, Error>)
    ensures
        number_result_view(r) == number_of(text@),
{
    let v = chars_of(text);
    if same_text(&v, &chars_of("Infinity")) {
        Ok(NumberValue::Infinity)
    } else if same_text(&v, &chars_of("-Infinity")) {
        Ok(NumberValue::NegInfinity)
    } else if same_text(&v, &chars_of("NaN")) || same_text(&v, &chars_of("-NaN")) {
        Ok(NumberValue::NaN)
    } else if v.len() > 2 && v[0] == '0' && (v[1] == 'x' || v[1] == 'X') {
        match hex_digits_from(&v, 2) {
            Some(n) => Ok(NumberValue::Hex(n)),
            None => Err(Error::DecodeError(DecodeFault::InvalidLiteral)),
        }
    } else {
        parse_float_literal(&v, text)
    }
}

} // verus!
