use spell_framework::text::{split_char, str_eq, trim};

#[test]
fn trim_like_std() {
    for s in ["", "  a b  ", "\t\nx\r\n", "\u{a0}y\u{2003}", "none"] {
        assert_eq!(trim(s), s.trim());
    }
}

#[test]
fn split_like_std() {
    for s in ["a:b::c", "", ":", "plain"] {
        let expected: Vec<String> = s.split(':').map(|p| p.to_string()).collect();
        assert_eq!(split_char(s, ':'), expected);
    }
}

#[test]
fn string_equality() {
    assert!(str_eq("abc", "abc"));
    assert!(!str_eq("abc", "abd"));
    assert!(!str_eq("ab", "abc"));
}
