use ezlogin::text::{concat_str, replace_all_exec, split_once_char, str_contains, str_starts_with, usize_to_decimal};

#[test]
fn searching() {
    assert!(str_contains("hello world", "o w"));
    assert!(str_contains("abc", ""));
    assert!(!str_contains("abc", "abcd"));
    assert!(str_starts_with("https://x", "https://"));
    assert!(!str_starts_with("http", "https"));
    assert_eq!(split_once_char("a:b:c", ':'), Some(("a".to_string(), "b:c".to_string())));
    assert_eq!(split_once_char("abc", ':'), None);
}

#[test]
fn rewriting() {
    assert_eq!(replace_all_exec("aaaa", "aa", "b"), "bb");
    assert_eq!(replace_all_exec("xaay", "a", ""), "xy");
    assert_eq!(concat_str("前", "后"), "前后");
    assert_eq!(usize_to_decimal(0), "0");
    assert_eq!(usize_to_decimal(1234567890), "1234567890");
}
