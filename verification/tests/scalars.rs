use json5::{
    is_hex_literal, parse_bool, parse_char_escape_sequence, parse_hex, parse_string, DecodeFault,
    Error, StringComponent,
};

fn literal(text: &str) -> StringComponent {
    StringComponent::CharLiteral(text.to_string())
}

fn escape(text: &str) -> StringComponent {
    StringComponent::CharEscape(text.to_string())
}

fn hex(text: &str) -> StringComponent {
    StringComponent::HexEscape(text.to_string())
}

fn unicode(text: &str) -> StringComponent {
    StringComponent::UnicodeEscape(text.to_string())
}

#[test]
fn bool_literals_decode_to_their_values() {
    assert_eq!(parse_bool("true"), Ok(true));
    assert_eq!(parse_bool("false"), Ok(false));
}

#[test]
fn other_text_is_no_boolean() {
    let invalid = Err(Error::DecodeError(DecodeFault::InvalidLiteral));
    assert_eq!(parse_bool(""), invalid);
    assert_eq!(parse_bool("True"), invalid);
    assert_eq!(parse_bool("FALSE"), invalid);
    assert_eq!(parse_bool("truefalse"), invalid);
    assert_eq!(parse_bool(" true"), invalid);
    assert_eq!(parse_bool("1"), invalid);
}

#[test]
fn letter_escapes_map_to_control_characters() {
    assert_eq!(parse_char_escape_sequence("b"), "\u{0008}");
    assert_eq!(parse_char_escape_sequence("f"), "\u{000C}");
    assert_eq!(parse_char_escape_sequence("n"), "\n");
    assert_eq!(parse_char_escape_sequence("r"), "\r");
    assert_eq!(parse_char_escape_sequence("t"), "\t");
    assert_eq!(parse_char_escape_sequence("v"), "\u{000B}");
}

#[test]
fn other_escaped_characters_map_to_themselves() {
    assert_eq!(parse_char_escape_sequence("q"), "q");
    assert_eq!(parse_char_escape_sequence("\""), "\"");
    assert_eq!(parse_char_escape_sequence("'"), "'");
    assert_eq!(parse_char_escape_sequence("\\"), "\\");
    assert_eq!(parse_char_escape_sequence("/"), "/");
    assert_eq!(parse_char_escape_sequence("B"), "B");
    assert_eq!(parse_char_escape_sequence("\u{00e9}"), "\u{00e9}");
}

#[test]
fn escape_text_of_another_length_stands_for_itself() {
    assert_eq!(parse_char_escape_sequence(""), "");
    assert_eq!(parse_char_escape_sequence("nn"), "nn");
}

#[test]
fn escaped_newline_between_two_letters() {
    let pieces = vec![literal("a"), escape("n"), literal("b")];
    let decoded = parse_string(&pieces).unwrap();
    assert_eq!(decoded.chars().collect::<Vec<char>>(), vec!['a', '\n', 'b']);
    assert_eq!(decoded.chars().count(), 3);
}

#[test]
fn string_without_pieces_is_empty() {
    assert_eq!(parse_string(&Vec::new()), Ok(String::new()));
}

#[test]
fn literal_runs_are_copied_verbatim() {
    let pieces = vec![literal("hello, "), literal("w\u{00f6}rld"), literal("")];
    assert_eq!(parse_string(&pieces), Ok("hello, w\u{00f6}rld".to_string()));
}

#[test]
fn nul_escape_is_code_point_zero() {
    let pieces = vec![literal("a"), StringComponent::NulEscape, literal("b")];
    assert_eq!(parse_string(&pieces), Ok("a\u{0000}b".to_string()));
}

#[test]
fn hex_and_unicode_escapes_name_code_points() {
    assert_eq!(parse_string(&vec![hex("41")]), Ok("A".to_string()));
    assert_eq!(parse_string(&vec![hex("7a")]), Ok("z".to_string()));
    assert_eq!(parse_string(&vec![unicode("00e9")]), Ok("\u{00e9}".to_string()));
    assert_eq!(parse_string(&vec![unicode("00E9")]), Ok("\u{00e9}".to_string()));
    assert_eq!(parse_string(&vec![unicode("D7FF")]), Ok("\u{D7FF}".to_string()));
    assert_eq!(parse_string(&vec![unicode("E000")]), Ok("\u{E000}".to_string()));
    assert_eq!(parse_string(&vec![unicode("10FFFF")]), Ok("\u{10FFFF}".to_string()));
}

#[test]
fn pieces_are_concatenated_in_order() {
    let pieces = vec![
        literal("x"),
        hex("41"),
        escape("t"),
        unicode("0042"),
        StringComponent::NulEscape,
        escape("'"),
        literal("yz"),
    ];
    assert_eq!(parse_string(&pieces), Ok("xA\tB\u{0000}'yz".to_string()));
}

#[test]
fn surrogates_and_large_numbers_are_no_code_points() {
    let invalid = Err(Error::DecodeError(DecodeFault::InvalidCodePoint));
    assert_eq!(parse_string(&vec![unicode("D800")]), invalid);
    assert_eq!(parse_string(&vec![unicode("DFFF")]), invalid);
    assert_eq!(parse_string(&vec![unicode("110000")]), invalid);
    assert_eq!(parse_string(&vec![literal("ok"), unicode("dabc")]), invalid);
}

#[test]
fn escapes_need_hexadecimal_digits() {
    let invalid = Err(Error::DecodeError(DecodeFault::InvalidEscape));
    assert_eq!(parse_string(&vec![hex("zz")]), invalid);
    assert_eq!(parse_string(&vec![hex("")]), invalid);
    assert_eq!(parse_string(&vec![unicode("12g4")]), invalid);
    assert_eq!(parse_string(&vec![unicode("+041")]), invalid);
}

#[test]
fn string_fails_with_its_first_failing_piece() {
    assert_eq!(
        parse_string(&vec![literal("a"), hex("zz"), unicode("D800")]),
        Err(Error::DecodeError(DecodeFault::InvalidEscape))
    );
    assert_eq!(
        parse_string(&vec![unicode("D800"), hex("zz"), literal("a")]),
        Err(Error::DecodeError(DecodeFault::InvalidCodePoint))
    );
}

#[test]
fn hex_digits_give_their_value() {
    assert_eq!(parse_hex("0"), Some(0));
    assert_eq!(parse_hex("1F"), Some(31));
    assert_eq!(parse_hex("1f"), Some(31));
    assert_eq!(parse_hex("ff"), Some(255));
    assert_eq!(parse_hex("0041"), Some(65));
    assert_eq!(parse_hex("abcdef"), Some(0xabcdef));
    assert_eq!(parse_hex("ABCDEF"), Some(0xabcdef));
    assert_eq!(parse_hex("7fffffff"), Some(0x7fff_ffff));
    assert_eq!(parse_hex("FFFFFFFF"), Some(u32::MAX));
}

#[test]
fn hex_digits_beyond_32_bits_keep_the_low_bits() {
    assert_eq!(parse_hex("100000000"), Some(0));
    assert_eq!(parse_hex("1FFFFFFFF"), Some(u32::MAX));
    assert_eq!(parse_hex("123456789"), Some(0x2345_6789));
    assert_eq!(parse_hex("00000000000000000000001F"), Some(31));
    assert_eq!(parse_hex("fedcba9876543210"), Some(0x7654_3210));
}

#[test]
fn text_that_is_not_hex_digits_has_no_value() {
    assert_eq!(parse_hex(""), None);
    assert_eq!(parse_hex("g"), None);
    assert_eq!(parse_hex("1G"), None);
    assert_eq!(parse_hex("+1F"), None);
    assert_eq!(parse_hex("-1"), None);
    assert_eq!(parse_hex(" 1"), None);
    assert_eq!(parse_hex("1 "), None);
    assert_eq!(parse_hex("0x1F"), None);
    assert_eq!(parse_hex("\u{0661}"), None);
}

#[test]
fn hex_literals_start_with_the_prefix_and_go_on() {
    assert!(is_hex_literal("0x1F"));
    assert!(is_hex_literal("0X1f"));
    assert!(is_hex_literal("0x0"));
    assert!(is_hex_literal("0xg"));
    assert!(is_hex_literal("0x\u{00e9}"));
    assert!(!is_hex_literal(""));
    assert!(!is_hex_literal("0"));
    assert!(!is_hex_literal("0x"));
    assert!(!is_hex_literal("0X"));
    assert!(!is_hex_literal("1x2"));
    assert!(!is_hex_literal("x0x1"));
    assert!(!is_hex_literal("-0x1"));
    assert!(!is_hex_literal("0\u{00e9}"));
    assert!(!is_hex_literal("123"));
}
