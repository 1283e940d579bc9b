use loadtest_core::text::{
    decimal_string, find_sub, find_sub_from, join_with, replace_all, starts_with, trim_trailing,
};

#[test]
fn find_first_occurrence() {
    assert_eq!(find_sub("key: value: more", ": "), Some(3));
    assert_eq!(find_sub("no separator", ": "), None);
    assert_eq!(find_sub("abc", ""), Some(0));
    assert_eq!(find_sub_from("key: value: more", ": ", 5), Some(10));
    assert_eq!(find_sub_from("key: value", ": ", 5), None);
}

#[test]
fn starts_with_prefix() {
    assert!(starts_with("  \"name\": \"x\",", "  \"name\":"));
    assert!(!starts_with("\"name\": \"x\",", "  \"name\":"));
    assert!(!starts_with("ab", "abc"));
}

#[test]
fn replace_every_occurrence() {
    assert_eq!(replace_all("a,b,a,b", "a", "xy"), "xy,b,xy,b");
    assert_eq!(replace_all("aaaa", "aa", "b"), "bb");
    assert_eq!(replace_all("nothing here", "zz", "yy"), "nothing here");
    assert_eq!(replace_all("\"v\", \"w\",", "\",", "-3\","), "\"v-3\", \"w-3\",");
}

#[test]
fn decimal_digits() {
    assert_eq!(decimal_string(0), "0");
    assert_eq!(decimal_string(7), "7");
    assert_eq!(decimal_string(10), "10");
    assert_eq!(decimal_string(90210), "90210");
    assert_eq!(decimal_string(u64::MAX), "18446744073709551615");
}

#[test]
fn trim_trailing_characters() {
    assert_eq!(trim_trailing("http://host//", '/'), "http://host");
    assert_eq!(trim_trailing("http://host", '/'), "http://host");
    assert_eq!(trim_trailing("///", '/'), "");
    assert_eq!(trim_trailing("", '/'), "");
}

#[test]
fn join_with_separator() {
    let items: Vec<String> = vec!["a".to_string(), "b".to_string(), "c".to_string()];
    assert_eq!(join_with(&items, ','), "a,b,c");
    let one: Vec<String> = vec!["only".to_string()];
    assert_eq!(join_with(&one, ','), "only");
    let none: Vec<String> = vec![];
    assert_eq!(join_with(&none, ','), "");
}
