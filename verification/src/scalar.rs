//! The decoders of boolean and string nodes.

use vstd::prelude::*;
use vstd::string::StringExecFns;
use crate::error::{DecodeFault, Error};
use crate::hex::{hex_u32, parse_hex};
use crate::node::StringComponent;
use crate::text::{chars_of, code_point_char, same_text};

verus! {

/// What the text of a boolean node decodes to: `true` and `false` decode to
/// their values, and no other text is a boolean.
pub open spec fn bool_of(s: Seq<char>) -> Result<bool, Error> {
    if s == "true"@ {
        Ok(true)
    } else if s == "false"@ {
        Ok(false)
    } else {
        Err(Error::DecodeError(DecodeFault::InvalidLiteral))
    }
}

/// The character that a single-character escape stands for: a control
/// character for `b`, `f`, `n`, `r`, `t` and `v`, and the character itself
/// for every other.
pub open spec fn escaped_char(c: char) -> char {
    if c == 'b' {
        '\u{0008}'
    } else if c == 'f' {
        '\u{000C}'
    } else if c == 'n' {
        '\n'
    } else if c == 'r' {
        '\r'
    } else if c == 't' {
        '\t'
    } else if c == 'v' {
        '\u{000B}'
    } else {
        c
    }
}

/// What the text of a character escape decodes to. A single character goes
/// through [`escaped_char`]; any other text stands for itself.
pub open spec fn char_escape_of(s: Seq<char>) -> Seq<char> {
    if s.len() == 1 {
        seq![escaped_char(s[0])]
    } else {
        s
    }
}

/// What the digits of a `\x` or `\u` escape decode to: the character whose
/// code point they write in base 16.
pub open spec fn code_point_escape_of(s: Seq<char>) -> Result<Seq<char>, Error> {
    match hex_u32(s) {
        None => Err(Error::DecodeError(DecodeFault::InvalidEscape)),
        Some(n) => match code_point_char(n) {
            None => Err(Error::DecodeError(DecodeFault::InvalidCodePoint)),
            Some(c) => Ok(seq![c]),
        },
    }
}

/// What one piece of a string decodes to.
pub open spec fn component_of(c: StringComponent) -> Result<Seq<char>, Error> {
    match c {
        StringComponent::CharLiteral(text) => Ok(text@),
        StringComponent::CharEscape(text) => Ok(char_escape_of(text@)),
        StringComponent::NulEscape => Ok(seq!['\0']),
        StringComponent::HexEscape(text) => code_point_escape_of(text@),
        StringComponent::UnicodeEscape(text) => code_point_escape_of(text@),
    }
}

/// What the pieces of a string node decode to: their decoded texts, one
/// after the other. If a piece fails, the string fails with the error of the
/// first piece that does.
pub open spec fn string_of(cs: Seq<StringComponent>) -> Result<Seq<char>, Error>
    decreases cs.len(),
{
    if cs.len() == 0 {
        Ok(Seq::empty())
    } else {
        match string_of(cs.drop_last()) {
            Err(e) => Err(e),
            Ok(front) => match component_of(cs.last()) {
                Err(e) => Err(e),
                Ok(text) => Ok(front + text),
            },
        }
    }
}

/// The view of a decoded string, or the error as it is.
pub open spec fn string_result_view(r: Result<String, Error>) -> Result<Seq<char>, Error> {
    match r {
        Ok(s) => Ok(s@),
        Err(e) => Err(e),
    }
}

/// The two boolean literals decode to the values they name, and every other
/// text is rejected.
pub proof fn lemma_bool_of()
    ensures
        bool_of("true"@) == Ok::<bool, Error>(true),
        bool_of("false"@) == Ok::<bool, Error>(false),
        forall|s: Seq<char>|
            s != "true"@ && s != "false"@ ==> #[trigger] bool_of(s) == Err::<bool, Error>(
                Error::DecodeError(DecodeFault::InvalidLiteral),
            ),
{
    reveal_strlit("true");
    reveal_strlit("false");
    assert("true"@.len() != "false"@.len());
}

/// Decodes the text of a boolean node.
pub fn parse_bool(text: &str) -> (r: Result<bool, Error>)
    ensures
        r == bool_of(text@),
{
    let v = chars_of(text);
    if same_text(&v, &chars_of("true")) {
        Ok(true)
    } else if same_text(&v, &chars_of("false")) {
        Ok(false)
    } else {
        Err(Error::DecodeError(DecodeFault::InvalidLiteral))
    }
}

/// Decodes the text of a character escape.
pub fn parse_char_escape_sequence(text: &str) -> (r: String)
    ensures
        r@ == char_escape_of(text@),
{
    let v = chars_of(text);
    if v.len() != 1 {
        return text.to_owned();
    }
    let c = v[0];
    let decoded = if c == 'b' {
        '\u{0008}'
    } else if c == 'f' {
        '\u{000C}'
    } else if c == 'n' {
        '\n'
    } else if c == 'r' {
        '\r'
    } else if c == 't' {
        '\t'
    } else if c == 'v' {
        '\u{000B}'
    } else {
        c
    };
    let mut r = String::new();
    r.push(decoded);
    r
}

/// Decodes the digits of a `\x` or `\u` escape to the character they name.
///
/// Fails with `InvalidEscape` where the text is empty or holds anything but
/// hexadecimal digits, and with `InvalidCodePoint` where the digits name a
/// surrogate or a number beyond the last code point.
pub fn parse_code_point_escape(text: &str) -> (r: Result<char, Error>)
    ensures
        match r {
            Ok(c) => code_point_escape_of(text@) == Ok::<Seq<char>, Error>(seq![c]),
            Err(e) => code_point_escape_of(text@) == Err::<Seq<char>, Error>(e),
        },
{
    match parse_hex(text) {
        None => Err(Error::DecodeError(DecodeFault::InvalidEscape)),
        Some(n) => match char::from_u32(n) {
            None => Err(Error::DecodeError(DecodeFault::InvalidCodePoint)),
            Some(c) => Ok(c),
        },
    }
}

/// Decodes a string node from its pieces.
///
/// Succeeds unless a `\x` or `\u` escape among the pieces is invalid; then
/// the error is that of the first such piece, and nothing of the string is
/// returned.
pub fn parse_string(components: &Vec<StringComponent>) -> (r: Result<String, Error>)
    ensures
        string_result_view(r) == string_of(components@),
{
    let mut out = String::new();
    let mut i: usize = 0;
    while i < components.len()
        invariant
            i <= components.len(),
            string_of(components@.take(i as int)) == Ok::<Seq<char>, Error>(out@),
        decreases components.len() - i,
    {
        let ghost front = components@.take(i as int);
        let ghost upto = components@.take(i + 1);
        assert(upto.drop_last() == front);
        assert(upto.last() == components@[i as int]);
        match &components[i] {
            StringComponent::CharLiteral(text) => {
                out.append(text.as_str());
            },
            StringComponent::CharEscape(text) => {
                let decoded = parse_char_escape_sequence(text.as_str());
                out.append(decoded.as_str());
            },
            StringComponent::NulEscape => {
                out.push('\0');
                assert(out@ == string_of(front)->Ok_0 + seq!['\0']);
            },
            StringComponent::HexEscape(text) | StringComponent::UnicodeEscape(text) => {
                match parse_code_point_escape(text.as_str()) {
                    Ok(c) => {
                        out.push(c);
                        assert(out@ == string_of(front)->Ok_0 + seq![c]);
                    },
                    Err(e) => {
                        proof {
                            lemma_string_of_fails(components@, i as int);
                        }
                        return Err(e);
                    },
                }
            },
        }
        i += 1;
    }
    assert(components@.take(components.len() as int) == components@);
    Ok(out)
}

/// A string fails with the error of its piece at `i` if that piece fails and
/// the pieces before it decode.
pub proof fn lemma_string_of_fails(cs: Seq<StringComponent>, i: int)
    requires
        0 <= i < cs.len(),
        string_of(cs.take(i)) is Ok,
        component_of(cs[i]) is Err,
    ensures
        string_of(cs) == Err::<Seq<char>, Error>(component_of(cs[i])->Err_0),
    decreases cs.len(),
{
    if i == cs.len() - 1 {
        assert(cs.drop_last() == cs.take(i));
    } else {
        assert(cs.drop_last().take(i) == cs.take(i));
        lemma_string_of_fails(cs.drop_last(), i);
    }
}

} // verus!
