//! The deserializer core and the sequence accessor.
//!
//! A [`Json5Deserializer`] holds one node and gives it up once:
//! [`Json5Deserializer::deserialize_any`] looks at the node's kind, runs the
//! scalar decoder that belongs to it, and says what the caller is to be
//! handed. For an array that is an [`Access`], which hands out one fresh
//! deserializer per element, in source order. What is decoded depends on the
//! node alone, never on what the caller hoped to get.

use vstd::prelude::*;
use crate::error::Error;
use crate::node::ParseNode;
use crate::number::{number_of, parse_number, NumberValue, NumberView};
use crate::scalar::{bool_of, parse_bool, parse_string, string_of};

verus! {

/// How deep arrays may nest under a deserializer made by
/// [`Json5Deserializer::from_pair`].
pub const DEFAULT_MAX_DEPTH: usize = 128;

/// The deserializer core: a slot for one node, and the number of array
/// levels that may still be entered below it.
#[derive(Debug, PartialEq, Eq)]
pub struct Json5Deserializer<'de> {
    pair: Option<&'de ParseNode>,
    depth_left: usize,
}

/// What a [`Json5Deserializer`] stands for.
pub struct DeserializerView {
    /// The node in the slot, until it is taken.
    pub node: Option<ParseNode>,
    /// How many levels of arrays may still be entered.
    pub depth_left: nat,
}

/// The accessor of an array: its elements, and a cursor that counts how many
/// of them have been handed out.
#[derive(Debug, PartialEq, Eq)]
pub struct Access<'de> {
    pairs: &'de Vec<ParseNode>,
    cursor: usize,
    depth_left: usize,
}

/// What an [`Access`] stands for.
pub struct AccessView {
    /// All elements of the array, in source order.
    pub children: Seq<ParseNode>,
    /// How many elements have been handed out.
    pub cursor: nat,
    /// How many levels of arrays may still be entered below an element.
    pub depth_left: nat,
}

/// What a dispatch hands to the caller: which kind of value the node was,
/// with the decoded scalar, or with the accessor of an array.
#[derive(Debug, PartialEq, Eq)]
pub enum Decoded<'de> {
    /// The node was `null`.
    Unit,
    /// The node was a boolean.
    Bool(bool),
    /// The node was a string; this is its text with the escapes resolved.
    String(String),
    /// The node was a number.
    Number(NumberValue),
    /// The node was an array; its elements are still to be decoded.
    Sequence(Access<'de>),
}

/// What a [`Decoded`] stands for.
pub enum DecodedView {
    Unit,
    Bool(bool),
    String(Seq<char>),
    Number(NumberView),
    Sequence(AccessView),
}

impl<'de> View for Json5Deserializer<'de> {
    type V = DeserializerView;

    closed spec fn view(&self) -> DeserializerView {
        DeserializerView {
            node: match self.pair {
                Some(node) => Some(*node),
                None => None,
            },
            depth_left: self.depth_left as nat,
        }
    }
}

impl<'de> View for Access<'de> {
    type V = AccessView;

    closed spec fn view(&self) -> AccessView {
        AccessView {
            children: self.pairs@,
            cursor: self.cursor as nat,
            depth_left: self.depth_left as nat,
        }
    }
}

impl<'de> View for Decoded<'de> {
    type V = DecodedView;

    open spec fn view(&self) -> DecodedView {
        match self {
            Decoded::Unit => DecodedView::Unit,
            Decoded::Bool(b) => DecodedView::Bool(*b),
            Decoded::String(s) => DecodedView::String(s@),
            Decoded::Number(n) => DecodedView::Number(n@),
            Decoded::Sequence(access) => DecodedView::Sequence(access@),
        }
    }
}

/// The view of what a dispatch returned, or the error as it is.
pub open spec fn decoded_result_view(r: Result<Decoded<'_>, Error>) -> Result<DecodedView, Error> {
    match r {
        Ok(d) => Ok(d@),
        Err(e) => Err(e),
    }
}

/// What a dispatch on `node` produces while `depth_left` levels of arrays may
/// still be entered. The node's kind decides: `null` is the unit value;
/// booleans, strings and numbers go through their decoders; an array gives
/// an accessor placed before its first element, unless no level is left; an
/// object is not supported.
pub open spec fn dispatch_of(node: ParseNode, depth_left: nat) -> Result<DecodedView, Error> {
    match node {
        ParseNode::Null => Ok(DecodedView::Unit),
        ParseNode::Boolean(text) => match bool_of(text@) {
            Ok(b) => Ok(DecodedView::Bool(b)),
            Err(e) => Err(e),
        },
        ParseNode::String(components) => match string_of(components@) {
            Ok(s) => Ok(DecodedView::String(s)),
            Err(e) => Err(e),
        },
        ParseNode::Number(text) => match number_of(text@) {
            Ok(n) => Ok(DecodedView::Number(n)),
            Err(e) => Err(e),
        },
        ParseNode::Array(children) => if depth_left == 0 {
            Err(Error::DepthExceeded)
        } else {
            Ok(
                DecodedView::Sequence(
                    AccessView {
                        children: children@,
                        cursor: 0,
                        depth_left: (depth_left - 1) as nat,
                    },
                ),
            )
        },
        ParseNode::Object(_) => Err(Error::UnsupportedShape),
    }
}

impl DeserializerView {
    /// A deserializer that holds `node` and may enter `depth_left` levels.
    pub open spec fn holding(node: ParseNode, depth_left: nat) -> DeserializerView {
        DeserializerView { node: Some(node), depth_left }
    }

    /// This deserializer after its node was taken.
    pub open spec fn taken(self) -> DeserializerView {
        DeserializerView { node: None, depth_left: self.depth_left }
    }

    /// What a dispatch produces: an error if the node was taken before, else
    /// what the node's kind calls for.
    pub open spec fn dispatch(self) -> Result<DecodedView, Error> {
        match self.node {
            None => Err(Error::NodeConsumed),
            Some(node) => dispatch_of(node, self.depth_left),
        }
    }
}

impl AccessView {
    /// Whether every element has been handed out.
    pub open spec fn exhausted(self) -> bool {
        self.cursor >= self.children.len()
    }

    /// What the next request returns: a deserializer that holds the element
    /// under the cursor, or nothing once the accessor is exhausted.
    pub open spec fn next_element(self) -> Option<DeserializerView> {
        if self.exhausted() {
            None
        } else {
            Some(DeserializerView::holding(self.children[self.cursor as int], self.depth_left))
        }
    }

    /// The accessor after the next request: the cursor has moved by one,
    /// unless the accessor is exhausted, which it then stays.
    pub open spec fn step(self) -> AccessView {
        if self.exhausted() {
            self
        } else {
            AccessView { cursor: self.cursor + 1, ..self }
        }
    }

    /// The accessor after `n` requests.
    pub open spec fn after(self, n: nat) -> AccessView
        decreases n,
    {
        if n == 0 {
            self
        } else {
            self.after((n - 1) as nat).step()
        }
    }
}

impl<'de> Json5Deserializer<'de> {
    /// A deserializer that holds `pair`, with the default nesting ceiling.
    pub fn from_pair(pair: &'de ParseNode) -> (de: Self)
        ensures
            de@ == DeserializerView::holding(*pair, DEFAULT_MAX_DEPTH as nat),
    {
        Json5Deserializer { pair: Some(pair), depth_left: DEFAULT_MAX_DEPTH }
    }

    /// A deserializer that holds `pair` and fails on arrays nested more than
    /// `max_depth` deep.
    pub fn with_max_depth(pair: &'de ParseNode, max_depth: usize) -> (de: Self)
        ensures
            de@ == DeserializerView::holding(*pair, max_depth as nat),
    {
        Json5Deserializer { pair: Some(pair), depth_left: max_depth }
    }

    /// Takes the node out of the slot and decodes it according to its kind.
    ///
    /// The slot is empty afterwards, whatever the outcome, and a second call
    /// fails with `NodeConsumed`. On the first call the result is an error
    /// exactly where the node is an object (`UnsupportedShape`), an array
    /// with no nesting level left (`DepthExceeded`), or a scalar that its
    /// decoder rejects (`DecodeError`).
    pub fn deserialize_any(&mut self) -> (r: Result<Decoded<'de>, Error>)
        ensures
            decoded_result_view(r) == old(self)@.dispatch(),
            final(self)@ == old(self)@.taken(),
    {
        let slot = self.pair;
        self.pair = None;
        let node = match slot {
            None => {
                return Err(Error::NodeConsumed);
            },
            Some(node) => node,
        };
        match node {
            ParseNode::Null => Ok(Decoded::Unit),
            ParseNode::Boolean(text) => match parse_bool(text.as_str()) {
                Ok(b) => Ok(Decoded::Bool(b)),
                Err(e) => Err(e),
            },
            ParseNode::String(components) => match parse_string(components) {
                Ok(s) => Ok(Decoded::String(s)),
                Err(e) => Err(e),
            },
            ParseNode::Number(text) => match parse_number(text.as_str()) {
                Ok(n) => Ok(Decoded::Number(n)),
                Err(e) => Err(e),
            },
            ParseNode::Array(children) => if self.depth_left == 0 {
                Err(Error::DepthExceeded)
            } else {
                Ok(Decoded::Sequence(Access::to(children, self.depth_left - 1)))
            },
            ParseNode::Object(_) => Err(Error::UnsupportedShape),
        }
    }
}

impl<'de> Access<'de> {
    /// An accessor placed before the first of `pairs`, under whose elements
    /// `depth_left` levels of arrays may be entered.
    pub fn to(pairs: &'de Vec<ParseNode>, depth_left: usize) -> (access: Self)
        ensures
            access@ == (AccessView { children: pairs@, cursor: 0, depth_left: depth_left as nat }),
    {
        Access { pairs, cursor: 0, depth_left }
    }

    /// Hands out a fresh deserializer over the element under the cursor and
    /// moves the cursor past it; returns `None`, and changes nothing, once
    /// every element has been handed out.
    pub fn next_element(&mut self) -> (r: Option<Json5Deserializer<'de>>)
        ensures
            deserializer_option_view(r) == old(self)@.next_element(),
            final(self)@ == old(self)@.step(),
    {
        if self.cursor < self.pairs.len() {
            let child = Json5Deserializer {
                pair: Some(&self.pairs[self.cursor]),
                depth_left: self.depth_left,
            };
            self.cursor = self.cursor + 1;
            Some(child)
        } else {
            None
        }
    }
}

/// The view of the deserializer that an accessor handed out, if it did.
pub open spec fn deserializer_option_view(r: Option<Json5Deserializer<'_>>) -> Option<
    DeserializerView,
> {
    match r {
        Some(de) => Some(de@),
        None => None,
    }
}

/// An accessor over `n` elements answers its first `n` requests with its
/// elements, one after the other in source order, and every request after
/// those with nothing, without changing any more.
pub proof fn lemma_access_hands_out_each_element_once(access: AccessView, k: nat)
    requires
        access.cursor == 0,
    ensures
        k < access.children.len() ==> access.after(k).next_element() == Some(
            DeserializerView::holding(access.children[k as int], access.depth_left),
        ),
        k >= access.children.len() ==> access.after(k).next_element() is None,
        k >= access.children.len() ==> access.after(k).step() == access.after(k),
        k >= access.children.len() ==> access.after(k) == access.after(access.children.len()),
{
    lemma_access_after(access, k);
    lemma_access_after(access, access.children.len());
}

/// Where the cursor stands after `k` requests: `k` elements further, but
/// never past the last element.
pub proof fn lemma_access_after(access: AccessView, k: nat)
    requires
        access.cursor <= access.children.len(),
    ensures
        access.after(k) == (AccessView {
            cursor: if access.cursor + k <= access.children.len() {
                access.cursor + k
            } else {
                access.children.len()
            },
            ..access
        }),
    decreases k,
{
    if k > 0 {
        lemma_access_after(access, (k - 1) as nat);
    }
}

} // verus!
