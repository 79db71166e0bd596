use wifi_menu::text::{chars_of, lines_trimmed, string_of, trimmed, trimmed_bounds};

#[test]
fn trims_ascii_whitespace_at_both_ends() {
    assert_eq!(trimmed("  Home Net \t"), "Home Net");
}

#[test]
fn trims_unicode_whitespace() {
    assert_eq!(trimmed("\u{3000}\u{a0}cafe\u{2009}\u{85}"), "cafe");
}

#[test]
fn trim_of_blank_text_is_empty() {
    assert_eq!(trimmed(""), "");
    assert_eq!(trimmed(" \t\r\n "), "");
}

#[test]
fn trim_keeps_inner_whitespace() {
    assert_eq!(trimmed(" a  b "), "a  b");
}

#[test]
fn trimmed_result_has_no_outer_whitespace() {
    let t = trimmed("\n\t x y \u{2028}");
    assert!(!t.starts_with(char::is_whitespace));
    assert!(!t.ends_with(char::is_whitespace));
}

#[test]
fn lines_drop_final_newline() {
    assert_eq!(lines_trimmed("a\nb\n"), vec!["a".to_string(), "b".to_string()]);
}

#[test]
fn lines_of_empty_text() {
    assert!(lines_trimmed("").is_empty());
}

#[test]
fn lines_keep_empty_lines() {
    assert_eq!(lines_trimmed("\n\n"), vec![String::new(), String::new()]);
    assert_eq!(lines_trimmed("a\n\nb"), vec!["a".to_string(), String::new(), "b".to_string()]);
}

#[test]
fn lines_handle_carriage_returns() {
    assert_eq!(lines_trimmed("x\r\ny\r\n"), vec!["x".to_string(), "y".to_string()]);
}

#[test]
fn lines_hold_no_newline() {
    for l in lines_trimmed("one\ntwo\n\nthree") {
        assert!(!l.contains('\n'));
    }
}

#[test]
fn chars_of_keeps_every_character() {
    assert_eq!(chars_of("aé\u{3000}"), vec!['a', 'é', '\u{3000}']);
}

#[test]
fn string_of_takes_a_range() {
    let cs = vec!['a', 'b', 'c', 'd'];
    assert_eq!(string_of(&cs, 1, 3), "bc");
    assert_eq!(string_of(&cs, 2, 2), "");
}

#[test]
fn trimmed_bounds_of_a_range() {
    let cs = chars_of("x  ab  y");
    assert_eq!(trimmed_bounds(&cs, 1, 7), (3, 5));
    assert_eq!(trimmed_bounds(&cs, 1, 3), (3, 3));
}
