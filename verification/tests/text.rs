use langchain_bridge::text::{
    chars_equal, chars_of, contains_chars, is_decimal_digit, matches_at, text_contains,
    text_equals,
};

#[test]
fn chars_of_keeps_every_character_in_order() {
    assert_eq!(chars_of(""), Vec::<char>::new());
    assert_eq!(chars_of("a\u{e9}\u{4e2d}z"), vec!['a', '\u{e9}', '\u{4e2d}', 'z']);
}

#[test]
fn the_empty_text_occurs_everywhere() {
    assert!(text_contains("", ""));
    assert!(text_contains("abc", ""));
}

#[test]
fn a_longer_needle_never_occurs() {
    assert!(!text_contains("", "a"));
    assert!(!text_contains("ab", "abc"));
}

#[test]
fn a_needle_is_found_at_the_start_in_the_middle_and_at_the_end() {
    assert!(text_contains("401 Unauthorized", "401"));
    assert!(text_contains("status 401 seen", "401"));
    assert!(text_contains("status 401", "401"));
    assert!(text_contains("401", "401"));
}

#[test]
fn a_needle_must_be_contiguous() {
    assert!(!text_contains("4-0-1", "401"));
    assert!(!text_contains("40", "401"));
    assert!(!text_contains("4001", "401"));
    assert!(text_contains("4401", "401"));
}

#[test]
fn a_repeated_prefix_does_not_hide_a_match() {
    assert!(text_contains("aaab", "aab"));
    assert!(text_contains("gpgpt", "gpt"));
}

#[test]
fn search_counts_characters_not_bytes() {
    assert!(text_contains("\u{e9}\u{e9}5", "5"));
    assert!(text_contains("caf\u{e9} 429", "\u{e9} 4"));
    assert!(!text_contains("caf\u{e9}", "e"));
}

#[test]
fn matches_at_looks_at_one_position_only() {
    let hay = chars_of("xx401");
    let needle = chars_of("401");
    assert!(!matches_at(&hay, &needle, 0));
    assert!(!matches_at(&hay, &needle, 1));
    assert!(matches_at(&hay, &needle, 2));
    assert!(contains_chars(&hay, &needle));
}

#[test]
fn equality_is_exact() {
    assert!(text_equals("", ""));
    assert!(text_equals("human", "human"));
    assert!(!text_equals("human", "Human"));
    assert!(!text_equals("human", "humans"));
    assert!(!text_equals("humans", "human"));
    assert!(!text_equals("human", "humen"));
    assert!(chars_equal(&chars_of("ai"), &vec!['a', 'i']));
    assert!(!chars_equal(&chars_of("ai"), &vec!['a']));
    assert!(chars_equal(&Vec::new(), &Vec::new()));
}

#[test]
fn the_ten_decimal_digits_are_digits_and_nothing_else_is() {
    for c in '0'..='9' {
        assert!(is_decimal_digit(c));
    }
    for c in ['/', ':', 'a', ' ', '\u{660}', '\u{ff15}', '\u{b2}'] {
        assert!(!is_decimal_digit(c));
    }
}
