use pilipili_bot::infrastructure::text::{
    decimal_string, has_suffix, join_strings, same_text, trim_end_matches, trim_start_matches,
};

#[test]
fn numbers_are_written_in_decimal() {
    assert_eq!(decimal_string(0), "0");
    assert_eq!(decimal_string(7), "7");
    assert_eq!(decimal_string(9), "9");
    assert_eq!(decimal_string(10), "10");
    assert_eq!(decimal_string(99), "99");
    assert_eq!(decimal_string(100), "100");
    assert_eq!(decimal_string(12_345), "12345");
    assert_eq!(decimal_string(u64::MAX as u128), "18446744073709551615");
    assert_eq!(decimal_string(u128::MAX), u128::MAX.to_string());
}

#[test]
fn parts_are_joined_with_the_separator_between() {
    let parts = |items: &[&str]| items.iter().map(|item| item.to_string()).collect::<Vec<_>>();
    assert_eq!(join_strings(&parts(&[]), ", "), "");
    assert_eq!(join_strings(&parts(&["a"]), ", "), "a");
    assert_eq!(join_strings(&parts(&["a", "b", "c"]), ", "), "a, b, c");
    assert_eq!(join_strings(&parts(&["", ""]), "-"), "-");
    assert_eq!(join_strings(&parts(&["a", "b"]), ""), "ab");
}

#[test]
fn runs_are_trimmed_at_either_end() {
    assert_eq!(trim_end_matches("https://a.com///", '/'), "https://a.com");
    assert_eq!(trim_end_matches("https://a.com", '/'), "https://a.com");
    assert_eq!(trim_end_matches("///", '/'), "");
    assert_eq!(trim_end_matches("", '/'), "");
    assert_eq!(trim_end_matches("/a/", '/'), "/a");
    assert_eq!(trim_start_matches("///users/1", '/'), "users/1");
    assert_eq!(trim_start_matches("users/", '/'), "users/");
    assert_eq!(trim_start_matches("//", '/'), "");
    assert_eq!(trim_start_matches("", '/'), "");
    assert_eq!(trim_start_matches("é/", 'é'), "/");
    assert_eq!(trim_end_matches("/é", 'é'), "/");
}

#[test]
fn suffixes_and_equality() {
    assert!(has_suffix("a.log", ".log"));
    assert!(has_suffix(".log", ".log"));
    assert!(has_suffix("anything", ""));
    assert!(!has_suffix("log", ".log"));
    assert!(!has_suffix("a.log.old", ".log"));
    assert!(!has_suffix("", "x"));
    assert!(same_text("abc", "abc"));
    assert!(same_text("", ""));
    assert!(!same_text("abc", "abd"));
    assert!(!same_text("abc", "ab"));
}
