use dots_family::strset::StringSet;
use dots_family::text::{
    escape_html, format_i64, join_strings, parse_comma_list, push_decimal, trim_chars, white_space,
};

#[test]
fn escape_html_replaces_markup() {
    assert_eq!(escape_html("a<b>&\"c\"'d'"), "a&lt;b&gt;&amp;&quot;c&quot;&#x27;d&#x27;");
    assert_eq!(escape_html("plain text"), "plain text");
    assert_eq!(escape_html(""), "");
}

#[test]
fn white_space_is_unicode_white_space() {
    for c in [' ', '\t', '\n', '\r', '\u{b}', '\u{c}', '\u{85}', '\u{a0}', '\u{2003}', '\u{3000}'] {
        assert!(white_space(c));
        assert_eq!(white_space(c), c.is_whitespace());
    }
    for c in ['a', ',', '\u{200b}', '0'] {
        assert!(!white_space(c));
        assert_eq!(white_space(c), c.is_whitespace());
    }
}

#[test]
fn trim_matches_str_trim() {
    for s in ["  a b  ", "\u{a0}x\u{3000}", "", "   ", "abc"] {
        let v: Vec<char> = s.chars().collect();
        assert_eq!(trim_chars(&v), s.trim());
    }
}

#[test]
fn comma_lists_are_split_trimmed_and_filtered() {
    assert_eq!(parse_comma_list("firefox, calculator"), vec!["firefox", "calculator"]);
    assert_eq!(parse_comma_list(" a ,, b , "), vec!["a", "b"]);
    assert!(parse_comma_list("").is_empty());
    assert!(parse_comma_list(" , ,").is_empty());
    assert_eq!(parse_comma_list("one"), vec!["one"]);
}

#[test]
fn join_then_parse_gives_entries_back() {
    let items = vec!["firefox".to_string(), "gnome calculator".to_string(), "x".to_string()];
    let text = join_strings(&items, ", ");
    assert_eq!(text, "firefox, gnome calculator, x");
    assert_eq!(parse_comma_list(&text), items);
    assert_eq!(join_strings(&Vec::new(), ", "), "");
}

#[test]
fn decimal_text() {
    assert_eq!(format_i64(0), "0");
    assert_eq!(format_i64(42), "42");
    assert_eq!(format_i64(-7), "-7");
    assert_eq!(format_i64(i64::MIN), "-9223372036854775808");
    assert_eq!(format_i64(i64::MAX), "9223372036854775807");
    let mut s = "n=".to_string();
    push_decimal(&mut s, 1005);
    assert_eq!(s, "n=1005");
}

#[test]
fn string_set_keeps_each_entry_once() {
    let mut s = StringSet::new();
    s.insert("a");
    s.insert("b");
    s.insert("a");
    assert_eq!(s.to_vec(), vec!["a", "b"]);
    assert!(s.contains("a"));
    s.remove("a");
    assert!(!s.contains("a"));
    assert_eq!(s.to_vec(), vec!["b"]);
    s.remove("zzz");
    assert_eq!(s.to_vec(), vec!["b"]);
}
