//! Access to the characters of a string slice, and the two functions of the
//! standard library that the decoders rest on without proof.

use vstd::prelude::*;
use vstd::std_specs::iter::IteratorSpec;

verus! {

/// `String::push` appends the character to the end of the string and leaves
/// the rest as it was.
pub assume_specification[ std::string::String::push ](s: &mut std::string::String, ch: char)
    ensures
        final(s)@ == old(s)@.push(ch),
;

/// `char::from_u32` gives the character whose code point is `i`, and `None`
/// exactly when `i` is a surrogate or lies beyond `0x10FFFF`.
pub assume_specification[ char::from_u32 ](i: u32) -> (r: Option<char>)
    ensures
        r == code_point_char(i),
;

/// Whether `i` is a Unicode scalar value: a code point that is no surrogate.
pub open spec fn is_scalar_value(i: u32) -> bool {
    i <= 0xD7FF || 0xE000 <= i <= 0x10FFFF
}

/// The character with code point `i`, if there is one.
pub open spec fn code_point_char(i: u32) -> Option<char> {
    if is_scalar_value(i) {
        Some(i as char)
    } else {
        None
    }
}

/// The characters of `s`, in order.
pub fn chars_of(s: &str) -> (v: Vec<char>)
    ensures
        v@ == s@,
{
    broadcast use vstd::string::group_string_axioms;

    let mut v: Vec<char> = Vec::new();
    for c in it: s.chars()
        invariant
            it.seq() == s@,
            v@ == s@.take(it.index() as int),
    {
        v.push(c);
    }
    v
}

/// Whether two character vectors hold the same text.
pub fn same_text(a: &Vec<char>, b: &Vec<char>) -> (r: bool)
    ensures
        r == (a@ == b@),
{
    if a.len() != b.len() {
        return false;
    }
    let mut i: usize = 0;
    while i < a.len()
        invariant
            a.len() == b.len(),
            i <= a.len(),
            a@.take(i as int) == b@.take(i as int),
        decreases a.len() - i,
    {
        if a[i] != b[i] {
            return false;
        }
        proof {
            assert(a@.take(i + 1) == a@.take(i as int).push(a@[i as int]));
            assert(b@.take(i + 1) == b@.take(i as int).push(b@[i as int]));
        }
        i += 1;
    }
    proof {
        assert(a@.take(a.len() as int) == a@);
        assert(b@.take(b.len() as int) == b@);
    }
    true
}

} // verus!
