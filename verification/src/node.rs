//! The parse tree that a grammar engine hands to the decoder.

use vstd::prelude::*;

verus! {

/// One piece of a string node. The pieces of a string stand in source order
/// and are concatenated when the string is decoded.
#[derive(Debug, PartialEq, Eq)]
pub enum StringComponent {
    /// A run of characters that stand for themselves.
    CharLiteral(String),
    /// What followed a backslash, where that is a single character that
    /// starts no longer escape.
    CharEscape(String),
    /// The escape `\0`.
    NulEscape,
    /// The two hexadecimal digits of a `\x` escape.
    HexEscape(String),
    /// The four hexadecimal digits of a `\u` escape.
    UnicodeEscape(String),
}

/// A node of the parse tree, tagged with the grammar rule that produced it.
/// A node owns its children, and the tree does not change once it is built.
#[derive(Debug, PartialEq, Eq)]
pub enum ParseNode {
    /// The literal `null`.
    Null,
    /// A boolean literal, with its text.
    Boolean(String),
    /// A quoted string, with its pieces in order.
    String(Vec<StringComponent>),
    /// A number literal, with its text.
    Number(String),
    /// An array, with its elements in order.
    Array(Vec<ParseNode>),
    /// An object, with its key and value pairs in order. The grammar knows
    /// objects; the decoder has no path for them.
    Object(Vec<(ParseNode, ParseNode)>),
}

} // verus!
