use acp_p2p::text::{chars_of, contains_str, same_text, split, split_once, strip_prefix, trim};

#[test]
fn trim_removes_unicode_whitespace_at_both_ends() {
    assert_eq!(trim("  ask x \t\n"), "ask x");
    assert_eq!(trim("\u{3000}a b\u{a0}"), "a b");
    assert_eq!(trim("   "), "");
    assert_eq!(trim(""), "");
    assert_eq!(trim("x"), "x");
}

#[test]
fn trim_agrees_with_std() {
    for s in ["  a  ", "\u{2028}b\u{85}", "\u{200b}c", " \u{1680}d e\u{205f} "] {
        assert_eq!(trim(s), s.trim());
    }
}

#[test]
fn strip_prefix_cases() {
    assert_eq!(strip_prefix("ask hello", "ask "), Some("hello"));
    assert_eq!(strip_prefix("ask", "ask "), None);
    assert_eq!(strip_prefix("asking", "ask "), None);
    assert_eq!(strip_prefix("x", ""), Some("x"));
}

#[test]
fn split_like_std() {
    for s in ["a,b", "a,", ",", "", "rust, math ,python", "né,é"] {
        let ours: Vec<&str> = split(s, ',');
        let std: Vec<&str> = s.split(',').collect();
        assert_eq!(ours, std);
    }
}

#[test]
fn contains_cases() {
    assert!(contains_str("fibonacci in rust", "rust"));
    assert!(contains_str("abc", ""));
    assert!(!contains_str("ab", "abc"));
    assert!(!contains_str("rus t", "rust"));
    assert!(contains_str("ééx", "éx"));
}

#[test]
fn same_text_and_chars() {
    assert!(same_text("peers", "peers"));
    assert!(!same_text("peers", "peer"));
    assert_eq!(chars_of("aé"), vec!['a', 'é']);
}

#[test]
fn split_once_like_std() {
    for s in ["a b c", "abc", " x", "x ", "", "é ü"] {
        assert_eq!(split_once(s, ' '), s.split_once(' '));
    }
}
