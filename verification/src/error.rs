//! The errors a decode can end in.

use vstd::prelude::*;

verus! {

/// Why a scalar node could not be decoded.
#[derive(Debug, Clone, Copy, PartialEq, Eq, Structural)]
pub enum DecodeFault {
    /// The digits of a `\x` or `\u` escape are not hexadecimal digits.
    InvalidEscape,
    /// An escape names a number that is no Unicode scalar value.
    InvalidCodePoint,
    /// A boolean or number node holds text that is no such literal.
    InvalidLiteral,
}

/// The error of every fallible operation of this crate.
#[derive(Debug, Clone, Copy, PartialEq, Eq, Structural)]
pub enum Error {
    /// The text is not well-formed; reported by the grammar engine before any
    /// decoding starts, with the offset at which it gave up.
    StructuralError { position: usize },
    /// A scalar node holds text that its decoder rejects.
    DecodeError(DecodeFault),
    /// An object node reached the decoder, which has no path for it.
    UnsupportedShape,
    /// A deserializer was asked for its node after the node had been taken.
    NodeConsumed,
    /// Arrays are nested deeper than the deserializer's ceiling allows.
    DepthExceeded,
}

} // verus!
