//! Decoding a whole tree into a value.
//!
//! [`Value`] is the shape that every tree can be decoded into. Decoding
//! drives the deserializer core the way any caller does: one dispatch per
//! node, and for an array one request per element, depth first and left to
//! right.

use vstd::prelude::*;
use crate::de::{
    dispatch_of, AccessView, Decoded, DecodedView, DeserializerView, Json5Deserializer,
    DEFAULT_MAX_DEPTH,
};
use crate::error::Error;
use crate::node::ParseNode;
use crate::number::{NumberValue, NumberView};

verus! {

/// A decoded value.
#[derive(Debug, PartialEq, Eq)]
pub enum Value {
    /// The value of `null`.
    Unit,
    /// A boolean.
    Bool(bool),
    /// A string, with its escapes resolved.
    String(String),
    /// A number.
    Number(NumberValue),
    /// The values of an array's elements, in source order.
    Sequence(Vec<Value>),
}

/// What a [`Value`] stands for.
pub enum ValueView {
    Unit,
    Bool(bool),
    String(Seq<char>),
    Number(NumberView),
    Sequence(Seq<ValueView>),
}

impl View for Value {
    type V = ValueView;

    open spec fn view(&self) -> ValueView {
        value_view(*self)
    }
}

/// What `value` stands for: the same value, with each string as its
/// characters and each vector as the sequence of what its items stand for.
pub open spec fn value_view(value: Value) -> ValueView
    decreases value,
{
    match value {
        Value::Unit => ValueView::Unit,
        Value::Bool(b) => ValueView::Bool(b),
        Value::String(s) => ValueView::String(s@),
        Value::Number(n) => ValueView::Number(n@),
        Value::Sequence(items) => ValueView::Sequence(
            Seq::new(
                items@.len(),
                |i: int|
                    if 0 <= i < items@.len() {
                        value_view(items@[i])
                    } else {
                        ValueView::Unit
                    },
            ),
        ),
    }
}

/// The views of `items`, in order.
pub open spec fn views_of(items: Seq<Value>) -> Seq<ValueView> {
    Seq::new(items.len(), |i: int| items[i]@)
}

/// A sequence value stands for the views of its items.
pub proof fn lemma_sequence_view(items: Vec<Value>)
    ensures
        Value::Sequence(items)@ == ValueView::Sequence(views_of(items@)),
{
    assert(Value::Sequence(items)@->Sequence_0 =~= views_of(items@));
}

/// The view of a decoded value, or the error as it is.
pub open spec fn value_result_view(r: Result<Value, Error>) -> Result<ValueView, Error> {
    match r {
        Ok(v) => Ok(v@),
        Err(e) => Err(e),
    }
}

/// What `node` decodes to while `depth_left` levels of arrays may still be
/// entered: what a dispatch on it produces, with an array's accessor
/// replaced by the decoded elements.
pub open spec fn value_of(node: ParseNode, depth_left: nat) -> Result<ValueView, Error>
    decreases depth_left, 0nat,
{
    match dispatch_of(node, depth_left) {
        Err(e) => Err(e),
        Ok(DecodedView::Unit) => Ok(ValueView::Unit),
        Ok(DecodedView::Bool(b)) => Ok(ValueView::Bool(b)),
        Ok(DecodedView::String(s)) => Ok(ValueView::String(s)),
        Ok(DecodedView::Number(n)) => Ok(ValueView::Number(n)),
        Ok(DecodedView::Sequence(access)) => match values_of(access.children, access.depth_left) {
            Ok(items) => Ok(ValueView::Sequence(items)),
            Err(e) => Err(e),
        },
    }
}

/// What the elements `children` decode to: their values in order. If an
/// element fails, the whole fails with the error of the first element that
/// does.
pub open spec fn values_of(children: Seq<ParseNode>, depth_left: nat) -> Result<
    Seq<ValueView>,
    Error,
>
    decreases depth_left, children.len() + 1,
{
    if children.len() == 0 {
        Ok(Seq::empty())
    } else {
        match values_of(children.drop_last(), depth_left) {
            Err(e) => Err(e),
            Ok(front) => match value_of(children.last(), depth_left) {
                Err(e) => Err(e),
                Ok(v) => Ok(front.push(v)),
            },
        }
    }
}

impl DeserializerView {
    /// What the node in the slot decodes to; an error if it was taken.
    pub open spec fn value(self) -> Result<ValueView, Error> {
        match self.node {
            None => Err(Error::NodeConsumed),
            Some(node) => value_of(node, self.depth_left),
        }
    }
}

/// An object decodes to nothing: whatever it holds and however deep it
/// stands, the outcome is `UnsupportedShape`.
pub proof fn lemma_object_is_unsupported(members: Vec<(ParseNode, ParseNode)>, depth_left: nat)
    ensures
        dispatch_of(ParseNode::Object(members), depth_left) == Err::<DecodedView, Error>(
            Error::UnsupportedShape,
        ),
        value_of(ParseNode::Object(members), depth_left) == Err::<ValueView, Error>(
            Error::UnsupportedShape,
        ),
{
}

/// Elements decode exactly when each of them does, and then to as many
/// values as there are elements, each the value of the element in its place.
pub proof fn lemma_values_of_elementwise(children: Seq<ParseNode>, depth_left: nat)
    ensures
        values_of(children, depth_left) is Ok <==> forall|i: int|
            0 <= i < children.len() ==> (#[trigger] value_of(children[i], depth_left)) is Ok,
        values_of(children, depth_left) matches Ok(items) ==> {
            &&& items.len() == children.len()
            &&& forall|i: int|
                0 <= i < children.len() ==> #[trigger] value_of(children[i], depth_left) == Ok::<
                    ValueView,
                    Error,
                >(items[i])
        },
    decreases children.len(),
{
    if children.len() > 0 {
        let front = children.drop_last();
        lemma_values_of_elementwise(front, depth_left);
        assert forall|i: int| 0 <= i < front.len() implies front[i] == children[i] by {}
        if values_of(front, depth_left) is Ok && value_of(children.last(), depth_left) is Ok {
            assert forall|i: int| 0 <= i < children.len() implies (#[trigger] value_of(
                children[i],
                depth_left,
            )) is Ok by {
                if i < front.len() {
                    assert(front[i] == children[i]);
                }
            }
        } else if values_of(front, depth_left) is Err {
            let i = choose|i: int|
                0 <= i < front.len() && !((#[trigger] value_of(front[i], depth_left)) is Ok);
            assert(front[i] == children[i]);
        }
    }
}

/// Elements fail with the error of the element at `i` if that one fails and
/// those before it decode.
pub proof fn lemma_values_of_fails(children: Seq<ParseNode>, depth_left: nat, i: int)
    requires
        0 <= i < children.len(),
        values_of(children.take(i), depth_left) is Ok,
        value_of(children[i], depth_left) is Err,
    ensures
        values_of(children, depth_left) == Err::<Seq<ValueView>, Error>(
            value_of(children[i], depth_left)->Err_0,
        ),
    decreases children.len(),
{
    if i == children.len() - 1 {
        assert(children.drop_last() == children.take(i));
    } else {
        assert(children.drop_last().take(i) == children.take(i));
        lemma_values_of_fails(children.drop_last(), depth_left, i);
    }
}

impl Value {
    /// Decodes the node that `de` holds, and everything below it.
    ///
    /// The node is taken out of `de`. Succeeds unless `de` was used before,
    /// or a node of the tree is an object, holds a scalar that its decoder
    /// rejects, or is an array nested deeper than `de` allows; the error is
    /// that of the first such node in depth-first, left-to-right order, and
    /// nothing of the value is returned.
    pub fn deserialize(de: &mut Json5Deserializer<'_>) -> (r: Result<Value, Error>)
        ensures
            value_result_view(r) == old(de)@.value(),
            final(de)@ == old(de)@.taken(),
        decreases old(de)@.depth_left,
    {
        let ghost depth_left = de@.depth_left;
        let mut access = match de.deserialize_any() {
            Err(e) => {
                return Err(e);
            },
            Ok(Decoded::Unit) => {
                return Ok(Value::Unit);
            },
            Ok(Decoded::Bool(b)) => {
                return Ok(Value::Bool(b));
            },
            Ok(Decoded::String(s)) => {
                return Ok(Value::String(s));
            },
            Ok(Decoded::Number(n)) => {
                return Ok(Value::Number(n));
            },
            Ok(Decoded::Sequence(access)) => access,
        };
        let ghost start = access@;
        let mut items: Vec<Value> = Vec::new();
        assert(start.children.take(0) == Seq::<ParseNode>::empty());
        assert(views_of(items@) == Seq::<ValueView>::empty());
        loop
            invariant
                depth_left == old(de)@.depth_left,
                old(de)@.dispatch() == Ok::<DecodedView, Error>(DecodedView::Sequence(start)),
                de@ == old(de)@.taken(),
                start.cursor == 0,
                start.depth_left < depth_left,
                access@ == (AccessView { cursor: access@.cursor, ..start }),
                access@.cursor <= start.children.len(),
                values_of(start.children.take(access@.cursor as int), start.depth_left) == Ok::<
                    Seq<ValueView>,
                    Error,
                >(views_of(items@)),
            decreases start.children.len() - access@.cursor,
        {
            let ghost at = access@.cursor as int;
            let mut child = match access.next_element() {
                None => {
                    proof {
                        assert(start.children.take(at) == start.children);
                        lemma_sequence_view(items);
                    }
                    return Ok(Value::Sequence(items));
                },
                Some(child) => child,
            };
            match Value::deserialize(&mut child) {
                Err(e) => {
                    proof {
                        lemma_values_of_fails(start.children, start.depth_left, at);
                    }
                    return Err(e);
                },
                Ok(v) => {
                    let ghost before = views_of(items@);
                    items.push(v);
                    assert(views_of(items@) == before.push(v@));
                    assert(start.children.take(at + 1).drop_last() == start.children.take(at));
                },
            }
        }
    }
}

/// Decodes `node` and everything below it, entering at most `max_depth`
/// levels of arrays.
pub fn decode_with_max_depth(node: &ParseNode, max_depth: usize) -> (r: Result<Value, Error>)
    ensures
        value_result_view(r) == value_of(*node, max_depth as nat),
{
    let mut de = Json5Deserializer::with_max_depth(node, max_depth);
    Value::deserialize(&mut de)
}

/// Decodes `node` and everything below it, with the default nesting ceiling.
pub fn decode(node: &ParseNode) -> (r: Result<Value, Error>)
    ensures
        value_result_view(r) == value_of(*node, DEFAULT_MAX_DEPTH as nat),
{
    let mut de = Json5Deserializer::from_pair(node);
    Value::deserialize(&mut de)
}

} // verus!
