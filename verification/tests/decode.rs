use json5::{
    decode, decode_with_max_depth, DecodeFault, Error, Json5Deserializer, NumberValue, ParseNode,
    StringComponent, Value,
};

fn number(text: &str) -> ParseNode {
    ParseNode::Number(text.to_string())
}

fn string(text: &str) -> ParseNode {
    ParseNode::String(vec![StringComponent::CharLiteral(text.to_string())])
}

fn decimal(text: &str) -> Value {
    Value::Number(NumberValue::Decimal(text.to_string()))
}

fn as_float(value: &Value) -> f64 {
    match value {
        Value::Number(NumberValue::Infinity) => f64::INFINITY,
        Value::Number(NumberValue::NegInfinity) => f64::NEG_INFINITY,
        Value::Number(NumberValue::NaN) => f64::NAN,
        Value::Number(NumberValue::Hex(n)) => *n as f64,
        Value::Number(NumberValue::Decimal(text)) => text.parse::<f64>().unwrap(),
        other => panic!("no number: {:?}", other),
    }
}

#[test]
fn nested_array_decodes_to_nested_sequences() {
    let node = ParseNode::Array(vec![
        number("1"),
        ParseNode::Array(vec![number("2"), number("3")]),
        number("4"),
    ]);
    let value = decode(&node).unwrap();
    assert_eq!(
        value,
        Value::Sequence(vec![
            decimal("1"),
            Value::Sequence(vec![decimal("2"), decimal("3")]),
            decimal("4"),
        ])
    );
    let items = match value {
        Value::Sequence(items) => items,
        other => panic!("no sequence: {:?}", other),
    };
    assert_eq!(items.len(), 3);
    let middle = match &items[1] {
        Value::Sequence(middle) => middle,
        other => panic!("no sequence: {:?}", other),
    };
    assert_eq!(middle.iter().map(as_float).collect::<Vec<f64>>(), vec![2.0, 3.0]);
    assert_eq!(as_float(&items[0]), 1.0);
    assert_eq!(as_float(&items[2]), 4.0);
}

#[test]
fn every_literal_form_decodes_to_its_value() {
    assert_eq!(decode(&ParseNode::Null), Ok(Value::Unit));
    assert_eq!(decode(&ParseNode::Boolean("true".to_string())), Ok(Value::Bool(true)));
    assert_eq!(decode(&ParseNode::Boolean("false".to_string())), Ok(Value::Bool(false)));
    assert_eq!(decode(&string("plain")), Ok(Value::String("plain".to_string())));
    assert_eq!(decode(&ParseNode::String(Vec::new())), Ok(Value::String(String::new())));
    assert_eq!(
        decode(&ParseNode::String(vec![
            StringComponent::CharEscape("b".to_string()),
            StringComponent::CharEscape("f".to_string()),
            StringComponent::CharEscape("n".to_string()),
            StringComponent::CharEscape("r".to_string()),
            StringComponent::CharEscape("t".to_string()),
            StringComponent::CharEscape("v".to_string()),
            StringComponent::NulEscape,
            StringComponent::HexEscape("41".to_string()),
            StringComponent::UnicodeEscape("20AC".to_string()),
            StringComponent::CharLiteral(" raw".to_string()),
        ])),
        Ok(Value::String("\u{0008}\u{000C}\n\r\t\u{000B}\u{0000}A\u{20AC} raw".to_string()))
    );
    assert_eq!(decode(&number("12")), Ok(decimal("12")));
    assert_eq!(decode(&number("-1.5e3")), Ok(decimal("-1.5e3")));
    assert_eq!(decode(&number("+.5")), Ok(decimal("+.5")));
    assert_eq!(decode(&number("0x1F")), Ok(Value::Number(NumberValue::Hex(31))));
    assert_eq!(decode(&number("0Xff")), Ok(Value::Number(NumberValue::Hex(255))));
    assert_eq!(decode(&number("Infinity")), Ok(Value::Number(NumberValue::Infinity)));
    assert_eq!(decode(&number("-Infinity")), Ok(Value::Number(NumberValue::NegInfinity)));
    assert_eq!(decode(&number("NaN")), Ok(Value::Number(NumberValue::NaN)));
    assert_eq!(decode(&number("-NaN")), Ok(Value::Number(NumberValue::NaN)));
    assert_eq!(decode(&ParseNode::Array(Vec::new())), Ok(Value::Sequence(Vec::new())));
    assert_eq!(
        decode(&ParseNode::Array(vec![ParseNode::Null, string("x")])),
        Ok(Value::Sequence(vec![Value::Unit, Value::String("x".to_string())]))
    );
}

#[test]
fn decoded_numbers_widen_to_the_expected_floats() {
    assert_eq!(as_float(&decode(&number("0x1F")).unwrap()), 31.0);
    assert_eq!(as_float(&decode(&number("-1.5e3")).unwrap()), -1500.0);
    assert_eq!(as_float(&decode(&number("Infinity")).unwrap()), f64::INFINITY);
    assert_eq!(as_float(&decode(&number("-Infinity")).unwrap()), f64::NEG_INFINITY);
    assert!(as_float(&decode(&number("NaN")).unwrap()).is_nan());
    assert!(as_float(&decode(&number("-NaN")).unwrap()).is_nan());
}

#[test]
fn object_literal_is_an_error_not_a_crash() {
    let object = ParseNode::Object(vec![(string("a"), number("1"))]);
    assert_eq!(decode(&object), Err(Error::UnsupportedShape));
    assert_eq!(decode(&ParseNode::Object(Vec::new())), Err(Error::UnsupportedShape));
}

#[test]
fn object_inside_an_array_fails_the_whole_decode() {
    let node = ParseNode::Array(vec![
        number("1"),
        ParseNode::Array(vec![ParseNode::Object(Vec::new())]),
        number("2"),
    ]);
    assert_eq!(decode(&node), Err(Error::UnsupportedShape));
}

#[test]
fn decode_fails_with_the_first_error_in_source_order() {
    let node = ParseNode::Array(vec![
        ParseNode::Boolean("yes".to_string()),
        ParseNode::Object(Vec::new()),
    ]);
    assert_eq!(decode(&node), Err(Error::DecodeError(DecodeFault::InvalidLiteral)));
    let node = ParseNode::Array(vec![
        ParseNode::Object(Vec::new()),
        ParseNode::Boolean("yes".to_string()),
    ]);
    assert_eq!(decode(&node), Err(Error::UnsupportedShape));
    let node = ParseNode::Array(vec![
        ParseNode::Array(vec![
            number("1"),
            ParseNode::String(vec![StringComponent::UnicodeEscape("D800".to_string())]),
        ]),
        ParseNode::Object(Vec::new()),
    ]);
    assert_eq!(decode(&node), Err(Error::DecodeError(DecodeFault::InvalidCodePoint)));
}

#[test]
fn nesting_beyond_the_ceiling_is_an_error() {
    let two_levels = ParseNode::Array(vec![number("1"), ParseNode::Array(vec![number("2")])]);
    assert_eq!(decode_with_max_depth(&two_levels, 0), Err(Error::DepthExceeded));
    assert_eq!(decode_with_max_depth(&two_levels, 1), Err(Error::DepthExceeded));
    assert_eq!(
        decode_with_max_depth(&two_levels, 2),
        Ok(Value::Sequence(vec![decimal("1"), Value::Sequence(vec![decimal("2")])]))
    );
    assert_eq!(decode_with_max_depth(&number("1"), 0), Ok(decimal("1")));
}

#[test]
fn deep_nesting_fails_without_overflowing_the_stack() {
    let mut node = ParseNode::Array(Vec::new());
    for _ in 0..10_000 {
        node = ParseNode::Array(vec![node]);
    }
    assert_eq!(decode(&node), Err(Error::DepthExceeded));
    std::mem::forget(node);
}

#[test]
fn decoding_takes_the_node_out_of_the_deserializer() {
    let node = ParseNode::Array(vec![number("1")]);
    let mut de = Json5Deserializer::from_pair(&node);
    assert_eq!(Value::deserialize(&mut de), Ok(Value::Sequence(vec![decimal("1")])));
    assert_eq!(Value::deserialize(&mut de), Err(Error::NodeConsumed));
    assert_eq!(de.deserialize_any(), Err(Error::NodeConsumed));
}

#[test]
fn structural_error_carries_its_position() {
    let error = Error::StructuralError { position: 7 };
    assert_eq!(error, Error::StructuralError { position: 7 });
    assert_ne!(error, Error::StructuralError { position: 8 });
    assert_ne!(error, Error::UnsupportedShape);
}
