use codegen_rust::text::{check_identifier, parse_u32, same_text, split_once_at_dot};

#[test]
fn parse_u32_reads_plain_decimal_numbers() {
    assert_eq!(parse_u32("0"), Some(0));
    assert_eq!(parse_u32("7"), Some(7));
    assert_eq!(parse_u32("42"), Some(42));
    assert_eq!(parse_u32("007"), Some(7));
    assert_eq!(parse_u32("1234567890"), Some(1_234_567_890));
}

#[test]
fn parse_u32_accepts_one_leading_plus() {
    assert_eq!(parse_u32("+5"), Some(5));
    assert_eq!(parse_u32("++5"), None);
    assert_eq!(parse_u32("+"), None);
}

#[test]
fn parse_u32_stops_at_the_largest_value() {
    assert_eq!(parse_u32("4294967295"), Some(u32::MAX));
    assert_eq!(parse_u32("4294967296"), None);
    assert_eq!(parse_u32("42949672950"), None);
    assert_eq!(parse_u32("99999999999999999999999"), None);
}

#[test]
fn parse_u32_rejects_what_is_no_number() {
    assert_eq!(parse_u32(""), None);
    assert_eq!(parse_u32("-1"), None);
    assert_eq!(parse_u32("one"), None);
    assert_eq!(parse_u32("1a"), None);
    assert_eq!(parse_u32(" 1"), None);
    assert_eq!(parse_u32("1 "), None);
    assert_eq!(parse_u32("1.0"), None);
    assert_eq!(parse_u32("\u{0661}"), None);
}

#[test]
fn parse_u32_agrees_with_the_standard_parser() {
    let inputs = [
        "", "+", "-", "0", "+0", "-0", "00", "12", "+12", "-12", "4294967295", "4294967296",
        "0x10", "1_000", "١٢", "12 ", "٣", "1e3", "18446744073709551616",
    ];
    for input in inputs {
        assert_eq!(parse_u32(input), input.parse::<u32>().ok(), "input {:?}", input);
    }
}

#[test]
fn split_is_made_at_the_first_dot() {
    assert_eq!(split_once_at_dot("message.MyMessage"), Some(("message", "MyMessage")));
    assert_eq!(split_once_at_dot("a.b.c"), Some(("a", "b.c")));
    assert_eq!(split_once_at_dot(".x"), Some(("", "x")));
    assert_eq!(split_once_at_dot("x."), Some(("x", "")));
    assert_eq!(split_once_at_dot("."), Some(("", "")));
}

#[test]
fn split_needs_a_dot() {
    assert_eq!(split_once_at_dot(""), None);
    assert_eq!(split_once_at_dot("messageMyMessage"), None);
}

#[test]
fn split_counts_characters_not_bytes() {
    assert_eq!(split_once_at_dot("größe.ß"), Some(("größe", "ß")));
    assert_eq!(split_once_at_dot("日本.語.x"), Some(("日本", "語.x")));
}

#[test]
fn split_agrees_with_the_standard_split() {
    let inputs = ["", ".", "..", "a", "a.", ".a", "a.b", "a.b.c", "é.è", "enum.X.Y"];
    for input in inputs {
        assert_eq!(split_once_at_dot(input), input.split_once('.'), "input {:?}", input);
    }
}

#[test]
fn identifiers_are_ascii_words() {
    assert!(check_identifier("a"));
    assert!(check_identifier("_"));
    assert!(check_identifier("_a1"));
    assert!(check_identifier("MyMessage"));
    assert!(check_identifier("my_call2"));
    assert!(check_identifier("Z9"));
}

#[test]
fn identifiers_exclude_the_rest() {
    assert!(!check_identifier(""));
    assert!(!check_identifier("1"));
    assert!(!check_identifier("1a"));
    assert!(!check_identifier("a-b"));
    assert!(!check_identifier("a b"));
    assert!(!check_identifier("a.b"));
    assert!(!check_identifier("größe"));
    assert!(!check_identifier("énum"));
    assert!(!check_identifier("a{"));
    assert!(!check_identifier("`a"));
    assert!(!check_identifier("a["));
    assert!(!check_identifier("@a"));
}

#[test]
fn same_text_compares_characters() {
    assert!(same_text("", ""));
    assert!(same_text("enum", "enum"));
    assert!(!same_text("enum", "Enum"));
    assert!(!same_text("enum", "enums"));
    assert!(!same_text("message", "enum"));
}
