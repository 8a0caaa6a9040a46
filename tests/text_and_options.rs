use typing_patterns::composites::{total_weight_of, weighted_index};
use typing_patterns::options::{parse_bool, parse_u32, PatternOptions};
use typing_patterns::pattern::{join_patterns, TypingPattern};
use typing_patterns::text::{digit_char, uppercase_first_letter};

fn part(text: &str) -> TypingPattern {
    TypingPattern { name: String::from("p"), pattern: String::from(text) }
}

#[test]
fn camel_case_foo_bar() {
    let parts = vec![part("foo"), part("bar")];
    assert_eq!(join_patterns(&parts, "", true), "FooBar");
    assert_eq!(join_patterns(&parts, "", false), "foobar");
    assert_eq!(join_patterns(&parts, ", ", false), "foo, bar");
    assert_eq!(join_patterns(&vec![], "-", true), "");
    assert_eq!(join_patterns(&vec![part("a"), part(""), part("b")], "-", true), "A--B");
}

#[test]
fn uppercase_first_letter_cases() {
    assert_eq!(uppercase_first_letter(""), "");
    assert_eq!(uppercase_first_letter("a"), "A");
    assert_eq!(uppercase_first_letter("foo"), "Foo");
    assert_eq!(uppercase_first_letter("Foo"), "Foo");
    assert_eq!(uppercase_first_letter("émile"), "Émile");
    assert_eq!(uppercase_first_letter("ßa"), "SSa");
    assert_eq!(uppercase_first_letter("1x"), "1x");
}

#[test]
fn digit_chars() {
    assert_eq!(digit_char(0), '0');
    assert_eq!(digit_char(7), '7');
    assert_eq!(digit_char(9), '9');
}

#[test]
fn parse_u32_cases() {
    assert_eq!(parse_u32("0"), Some(0));
    assert_eq!(parse_u32("42"), Some(42));
    assert_eq!(parse_u32("+12"), Some(12));
    assert_eq!(parse_u32("007"), Some(7));
    assert_eq!(parse_u32("4294967295"), Some(u32::MAX));
    assert_eq!(parse_u32("4294967296"), None);
    assert_eq!(parse_u32("99999999999"), None);
    assert_eq!(parse_u32(""), None);
    assert_eq!(parse_u32("+"), None);
    assert_eq!(parse_u32("-1"), None);
    assert_eq!(parse_u32("12a"), None);
    assert_eq!(parse_u32(" 1"), None);
}

#[test]
fn parse_bool_cases() {
    assert_eq!(parse_bool("true"), Some(true));
    assert_eq!(parse_bool("false"), Some(false));
    assert_eq!(parse_bool("True"), None);
    assert_eq!(parse_bool(""), None);
    assert_eq!(parse_bool("truee"), None);
}

#[test]
fn options_later_entry_wins() {
    let opts = PatternOptions::new().with("count", "2").with("delimiter", ",").with("count", "5");
    assert_eq!(opts.get("count"), Some(String::from("5")));
    assert_eq!(opts.get("delimiter"), Some(String::from(",")));
    assert_eq!(opts.get("missing"), None);
    assert_eq!(opts.resolve_count("count", 9), 5);
    assert_eq!(opts.resolve_count("missing", 9), 9);
    assert_eq!(opts.resolve_text("delimiter", " "), ",");
    assert_eq!(opts.resolve_text("missing", " "), " ");
    assert!(opts.resolve_flag("missing", true));
}

#[test]
fn weighted_index_follows_running_sums() {
    let ws = vec![(0u32, 10usize), (2, 11), (3, 12)];
    assert_eq!(weighted_index(&ws, 0), 1);
    assert_eq!(weighted_index(&ws, 1), 1);
    assert_eq!(weighted_index(&ws, 2), 2);
    assert_eq!(weighted_index(&ws, 4), 2);
}

#[test]
fn total_weight_sums_or_overflows() {
    assert_eq!(total_weight_of(&vec![(1, 0), (2, 1), (3, 2)]), Some(6));
    assert_eq!(total_weight_of(&vec![]), Some(0));
    assert_eq!(total_weight_of(&vec![(u32::MAX, 0)]), Some(u32::MAX));
    assert_eq!(total_weight_of(&vec![(u32::MAX, 0), (1, 0)]), None);
}
