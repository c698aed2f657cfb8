use tag_manager::text::contains_substring;
use tag_manager::text::parse_u32;
use tag_manager::text::split_csv;
use tag_manager::text::str_eq;
use tag_manager::text::u32_to_dec;

#[test]
fn decimal_rendering_is_exact() {
    assert_eq!(u32_to_dec(0), "0");
    assert_eq!(u32_to_dec(7), "7");
    assert_eq!(u32_to_dec(42), "42");
    assert_eq!(u32_to_dec(400), "400");
    assert_eq!(u32_to_dec(4294967295), "4294967295");
}

#[test]
fn parsing_accepts_plain_digit_strings() {
    assert_eq!(parse_u32("0"), Some(0));
    assert_eq!(parse_u32("400"), Some(400));
    assert_eq!(parse_u32("4294967295"), Some(4294967295));
}

#[test]
fn parsing_rejects_junk_and_overflow() {
    assert_eq!(parse_u32(""), None);
    assert_eq!(parse_u32("12a"), None);
    assert_eq!(parse_u32("-3"), None);
    assert_eq!(parse_u32("4294967296"), None);
    assert_eq!(parse_u32("99999999999999999999"), None);
}

#[test]
fn string_equality_is_by_content() {
    assert!(str_eq("abc", "abc"));
    assert!(!str_eq("abc", "abd"));
    assert!(!str_eq("abc", "ab"));
    assert!(str_eq("", ""));
}

#[test]
fn substring_search_finds_inner_runs() {
    assert!(contains_substring("landscape", "sca"));
    assert!(contains_substring("landscape", "landscape"));
    assert!(contains_substring("landscape", ""));
    assert!(!contains_substring("landscape", "seascape"));
    assert!(!contains_substring("sca", "landscape"));
}

#[test]
fn csv_split_keeps_every_run() {
    let parts = split_csv("alice,bob", ',');
    assert_eq!(parts, vec!["alice".to_string(), "bob".to_string()]);
    let parts = split_csv("", ',');
    assert_eq!(parts, vec!["".to_string()]);
    let parts = split_csv("a,,b", ',');
    assert_eq!(parts, vec!["a".to_string(), "".to_string(), "b".to_string()]);
    let parts = split_csv("trailing,", ',');
    assert_eq!(parts, vec!["trailing".to_string(), "".to_string()]);
}
