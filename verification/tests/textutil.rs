//! Byte-level text utilities.

use magent::text::{
    char_prefix, cent_bytes, contains_bytes, dec_bytes, join_bytes, percent_bytes, split_clean,
    split_words, tenths_bytes, to_lower_bytes, trim_bytes,
};

fn b(s: &str) -> Vec<u8> {
    s.as_bytes().to_vec()
}

#[test]
fn contains_finds_substrings() {
    assert!(contains_bytes(b"hello world", b"o w"));
    assert!(contains_bytes(b"hello", b""));
    assert!(!contains_bytes(b"hello", b"world"));
    assert!(contains_bytes("我想做一个平台".as_bytes(), "平台".as_bytes()));
    assert!(!contains_bytes(b"", b"x"));
}

#[test]
fn lowercase_only_touches_ascii_letters() {
    assert_eq!(to_lower_bytes(b"AbC-12"), b(&"abc-12"));
    assert_eq!(to_lower_bytes("目标KPI".as_bytes()), b(&"目标kpi"));
}

#[test]
fn trim_removes_edges_only() {
    assert_eq!(trim_bytes(b"  hi there \t\n"), b(&"hi there"));
    assert_eq!(trim_bytes(b"   "), b(&""));
    assert_eq!(trim_bytes(b"x"), b(&"x"));
}

#[test]
fn split_clean_handles_mixed_separators() {
    let parts = split_clean("学生, 老师、家长；工程师; ,  设计师 ".as_bytes());
    let expected = vec![b("学生"), b("老师"), b("家长"), b("工程师"), b("设计师")];
    assert_eq!(parts, expected);
}

#[test]
fn split_words_is_whitespace_separated() {
    let words = split_words(b"one  two\tthree ");
    assert_eq!(words, vec![b("one"), b("two"), b("three")]);
    assert_eq!(split_words("我想做".as_bytes()), vec![b("我想做")]);
}

#[test]
fn char_prefix_respects_utf8_boundaries() {
    assert_eq!(char_prefix("你好ab".as_bytes(), 3), b("你好a"));
    assert_eq!(char_prefix(b"abc", 20), b(&"abc"));
    assert_eq!(char_prefix("教育".as_bytes(), 1), b("教"));
}

#[test]
fn renderers_have_exact_expected_values() {
    assert_eq!(dec_bytes(0), b(&"0"));
    assert_eq!(dec_bytes(10230), b(&"10230"));
    assert_eq!(tenths_bytes(850), b(&"0.9"));
    assert_eq!(tenths_bytes(1000), b(&"1.0"));
    assert_eq!(cent_bytes(856), b(&"0.86"));
    assert_eq!(percent_bytes(532), b(&"53.2"));
    assert_eq!(percent_bytes(1000), b(&"100.0"));
}

#[test]
fn join_uses_separator_between_parts() {
    let parts = vec![b("a"), b("bb"), b("c")];
    assert_eq!(join_bytes(&parts, b", "), b(&"a, bb, c"));
    let one = vec![b("solo")];
    assert_eq!(join_bytes(&one, b", "), b(&"solo"));
    let none: Vec<Vec<u8>> = Vec::new();
    assert_eq!(join_bytes(&none, b", "), b(&""));
}
