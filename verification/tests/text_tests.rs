use loki_mcp::json::{integer_json, text_json, unsigned_json, Json, Number};
use loki_mcp::keyed::{find_named, place};
use loki_mcp::text::{
    before, chars_of, contains, copy_text, i64_text, join, join2, join3, parse_i64, parse_u32,
    parse_u64, push_decimal, push_hex, same_text, squeeze, starts_with, string_of, to_lower, trim,
    u64_text,
};

#[test]
fn texts_are_trimmed_folded_and_searched() {
    assert_eq!(trim(" \t a b \u{3000}\n"), "a b");
    assert_eq!(trim("\u{200B}x"), "\u{200B}x");
    assert_eq!(trim(""), "");
    assert_eq!(to_lower("ÄBC xyz"), "Äbc xyz");
    assert_eq!(squeeze(" 1 0\tm\n"), chars_of("10m"));
    assert_eq!(squeeze("a\u{0B}\u{A0}b"), chars_of("a\u{0B}\u{A0}b"));
    assert!(contains("a guardrail said no", "guardrail"));
    assert!(contains("abc", ""));
    assert!(!contains("ab", "abc"));
    assert!(contains("aab", "ab"));
    assert!(starts_with("since 2pm", "since "));
    assert!(!starts_with("sinc", "since "));
    assert!(same_text("a", "a") && !same_text("a", "A"));
    assert_eq!(string_of(&chars_of("héllo")), "héllo");
    assert_eq!(copy_text("x"), "x");
    assert_eq!(join2("a", "b"), "ab");
    assert_eq!(join3("a", "", "c"), "ac");
    assert_eq!(join(&vec!["a".to_string(), "b".to_string(), "c".to_string()], ", "), "a, b, c");
    assert_eq!(join(&vec!["a".to_string()], ", "), "a");
    assert_eq!(join(&Vec::new(), ", "), "");
}

#[test]
fn texts_are_ordered_by_code_point() {
    for (a, b) in [("", "a"), ("a", "ab"), ("ab", "b"), ("B", "a"), ("a", "ä"), ("z", "\u{10000}")] {
        assert!(before(a, b), "{a:?} should come before {b:?}");
        assert!(!before(b, a));
        assert_eq!(before(a, b), a < b);
    }
    assert!(!before("same", "same"));
}

#[test]
fn numbers_are_read_as_the_standard_library_reads_them() {
    for text in ["0", "007", "+5", "18446744073709551615", "18446744073709551616", "", "+", "-1", "1 ", "１"] {
        assert_eq!(parse_u64(text), text.parse::<u64>().ok(), "reading {text:?}");
    }
    for text in ["4294967295", "4294967296", "+0", "a"] {
        assert_eq!(parse_u32(text), text.parse::<u32>().ok(), "reading {text:?}");
    }
    for text in ["-9223372036854775808", "-9223372036854775809", "9223372036854775807", "9223372036854775808", "-0", "+-1", "-", "--1", "12"] {
        assert_eq!(parse_i64(text), text.parse::<i64>().ok(), "reading {text:?}");
    }
}

#[test]
fn numbers_are_written_in_decimal_and_hex() {
    for n in [0u64, 9, 10, 1_000_000, u64::MAX] {
        assert_eq!(u64_text(n), n.to_string());
    }
    for n in [0i64, -1, 42, i64::MIN, i64::MAX] {
        assert_eq!(i64_text(n), n.to_string());
    }
    let mut out = "n=".to_string();
    push_decimal(&mut out, 120);
    assert_eq!(out, "n=120");
    let mut hex = String::new();
    push_hex(&mut hex, 0xAB_CDEF, 16);
    assert_eq!(hex, "0000000000abcdef");
    let mut low = String::new();
    push_hex(&mut low, 0x1_2345, 4);
    assert_eq!(low, "2345");
}

#[test]
fn named_lists_stay_in_order() {
    let mut list: Vec<(String, u64)> = Vec::new();
    for (name, value) in [("m", 1), ("a", 2), ("z", 3), ("m", 4), ("b", 5)] {
        place(&mut list, name.to_string(), value);
    }
    assert_eq!(
        list,
        vec![("a".to_string(), 2), ("b".to_string(), 5), ("m".to_string(), 4), ("z".to_string(), 3)]
    );
    assert_eq!(find_named(&list, "m"), Some(&4));
    assert_eq!(find_named(&list, "q"), None);
}

#[test]
fn documents_are_looked_up_by_name() {
    let value = Json::Object(vec![
        ("a".to_string(), unsigned_json(1)),
        ("b".to_string(), text_json("x")),
        ("a".to_string(), integer_json(-2)),
    ]);
    assert_eq!(value.get("a").and_then(Json::as_i64), Some(-2));
    assert_eq!(value.get("a").and_then(Json::as_u64), None);
    assert_eq!(value.get("b").and_then(Json::as_str).map(|s| s.as_str()), Some("x"));
    assert!(value.get("c").is_none());
    assert!(Json::Null.get("a").is_none());
    assert_eq!(unsigned_json(u64::MAX).as_i64(), None);
    assert_eq!(integer_json(5).as_u64(), Some(5));
    assert!(matches!(integer_json(-5), Json::Number(Number::Negative(-5))));
    let copy = value.clone();
    assert_eq!(format!("{copy:?}"), format!("{value:?}"));
    assert_eq!(value.as_object().map(|m| m.len()), Some(3));
    assert!(Json::Array(vec![]).as_array().is_some());
    assert!(Json::Null.is_null());
}

#[test]
fn parts_are_what_the_separator_sets_apart() {
    let split = |text: &str, c: char| -> Vec<String> {
        loki_mcp::text::split_chars(&text.chars().collect(), c).iter().map(|part| part.iter().collect()).collect()
    };
    for text in ["", "|", "a|b", "|a||b|", "no bars", " a | b ", "é|ü|"] {
        let expected: Vec<String> = text.split('|').map(str::to_string).collect();
        assert_eq!(split(text, '|'), expected, "{text:?}");
    }
    assert_eq!(split("a,b", '|'), vec!["a,b".to_string()]);
}

#[test]
fn words_and_later_finds() {
    let chars = |text: &str| -> Vec<char> { text.chars().collect() };
    assert_eq!(loki_mcp::text::leading_word(&chars("count_over_time({a})")), 15);
    assert_eq!(loki_mcp::text::leading_word(&chars("rate9 (x)")), 5);
    assert_eq!(loki_mcp::text::leading_word(&chars("{a}")), 0);
    assert_eq!(loki_mcp::text::leading_word(&chars("")), 0);
    assert_eq!(loki_mcp::text::leading_word(&chars("étoile")), 0);
    let text = chars("{a}{b}");
    assert_eq!(loki_mcp::text::find_from(&text, 0, '}'), 2);
    assert_eq!(loki_mcp::text::find_from(&text, 3, '}'), 5);
    assert_eq!(loki_mcp::text::find_from(&text, 6, '}'), 6);
    assert_eq!(loki_mcp::text::find_from(&text, 0, '|'), 6);
}
