use arbor::strutil::{
    contains_sub, ends_with, find_from, join_str, split_char, starts_with, str_eq, to_lower,
    trim_quotes, u32_to_string, u64_to_hex, u64_to_string,
};

#[test]
fn test_parse_qualified_name() {
    let parts: Vec<&str> = "requests.get".split('.').collect();
    assert_eq!(parts, vec!["requests", "get"]);

    let parts: Vec<&str> = "requests.sessions.Session.request".split('.').collect();
    assert_eq!(parts, vec!["requests", "sessions", "Session", "request"]);
}

#[test]
fn test_split_char_matches_std() {
    let ours = split_char("requests.sessions.Session.request", '.');
    let std_parts: Vec<&str> = "requests.sessions.Session.request".split('.').collect();
    assert_eq!(ours.len(), std_parts.len());
    for (a, b) in ours.iter().zip(std_parts.iter()) {
        assert_eq!(a, b);
    }

    let empties = split_char("a..b", '.');
    assert_eq!(empties, vec!["a".to_string(), "".to_string(), "b".to_string()]);

    let whole = split_char("plain", '.');
    assert_eq!(whole, vec!["plain".to_string()]);
}

#[test]
fn test_join_str_round_trip() {
    let parts = vec!["a".to_string(), "b".to_string(), "c".to_string()];
    assert_eq!(join_str(&parts, "."), "a.b.c");
    assert_eq!(join_str(&parts, " | "), "a | b | c");
    let rejoined = join_str(&split_char("x.y.z", '.'), ".");
    assert_eq!(rejoined, "x.y.z");
}

#[test]
fn test_numeric_rendering() {
    assert_eq!(u32_to_string(0), "0");
    assert_eq!(u32_to_string(42), "42");
    assert_eq!(u64_to_string(1234567890123), "1234567890123");
    assert_eq!(u64_to_hex(255), "ff");
    assert_eq!(u64_to_hex(0), "0");
    assert_eq!(u64_to_hex(0xdead_beef), "deadbeef");
}

#[test]
fn test_case_folding_and_search() {
    assert_eq!(to_lower("ConnectionTimeout"), "connectiontimeout");
    assert!(contains_sub("connectiontimeout", "timeout"));
    assert!(!contains_sub("valueerror", "timeout"));
    assert!(starts_with("simple_module.py", "simple"));
    assert!(ends_with("simple_module.py", ".py"));
    assert!(str_eq("same", "same"));
    assert!(!str_eq("same", "Same"));
    assert_eq!(find_from("abcabc", "bc", 2), Some(4));
}

#[test]
fn test_trim_quotes() {
    assert_eq!(trim_quotes("\"hello\""), "hello");
    assert_eq!(trim_quotes("'hello'"), "hello");
    assert_eq!(trim_quotes("plain"), "plain");
    assert_eq!(trim_quotes("\"\""), "");
}
