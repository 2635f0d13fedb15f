use gizmo_setup_wizard::text::{
    ascii_digit, ascii_letter, ends_with, lines, same_text, split_at, starts_with, strip_leading,
    strip_carriage_return, strip_trailing, to_ascii_upper,
};

#[test]
fn same_text_compares_characters() {
    assert!(same_text("gizmo", "gizmo"));
    assert!(!same_text("gizmo", "Gizmo"));
    assert!(same_text("", ""));
    assert!(!same_text("a", ""));
}

#[test]
fn letters_and_digits_are_told_apart() {
    assert!(ascii_letter('a') && ascii_letter('z') && ascii_letter('A') && ascii_letter('Z'));
    assert!(!ascii_letter('0') && !ascii_letter('[') && !ascii_letter('`') && !ascii_letter('é'));
    assert!(ascii_digit('0') && ascii_digit('9'));
    assert!(!ascii_digit('a') && !ascii_digit('/') && !ascii_digit(':'));
}

#[test]
fn upper_case_changes_small_letters_only() {
    assert_eq!(to_ascii_upper('e'), 'E');
    assert_eq!(to_ascii_upper('a'), 'A');
    assert_eq!(to_ascii_upper('z'), 'Z');
    assert_eq!(to_ascii_upper('E'), 'E');
    assert_eq!(to_ascii_upper('1'), '1');
    assert_eq!(to_ascii_upper('é'), 'é');
}

#[test]
fn split_at_keeps_empty_pieces() {
    assert_eq!(split_at("", '\n'), vec![""]);
    assert_eq!(split_at("abc", '\n'), vec!["abc"]);
    assert_eq!(split_at("a\nb", '\n'), vec!["a", "b"]);
    assert_eq!(split_at("a\n\nb\n", '\n'), vec!["a", "", "b", ""]);
    assert_eq!(split_at("\n", '\n'), vec!["", ""]);
    assert_eq!(split_at("a,b", ','), vec!["a", "b"]);
}

#[test]
fn lines_end_at_line_feeds() {
    assert_eq!(lines(""), Vec::<String>::new());
    assert_eq!(lines("one"), vec!["one"]);
    assert_eq!(lines("one\ntwo"), vec!["one", "two"]);
    assert_eq!(lines("one\ntwo\n"), vec!["one", "two"]);
    assert_eq!(lines("one\n\ntwo\n"), vec!["one", "", "two"]);
    assert_eq!(lines("\n"), vec![""]);
}

#[test]
fn lines_drop_a_carriage_return_before_a_line_feed_only() {
    assert_eq!(lines("one\r\ntwo\r\n"), vec!["one", "two"]);
    assert_eq!(lines("one\r\ntwo\r"), vec!["one", "two\r"]);
    assert_eq!(lines("a\rb\n"), vec!["a\rb"]);
    assert_eq!(lines("a\r\r\n"), vec!["a\r"]);
}

#[test]
fn lines_agree_with_the_standard_library() {
    for text in ["", "\n", "a", "a\n", "a\r\n", "a\r", "\r\n\r\n", "x\n\ny", "é\nü\r\nø"] {
        let expected: Vec<String> = text.lines().map(|line| line.to_string()).collect();
        assert_eq!(lines(text), expected, "for {:?}", text);
    }
}

#[test]
fn strip_carriage_return_takes_one() {
    assert_eq!(strip_carriage_return("abc\r"), "abc");
    assert_eq!(strip_carriage_return("abc\r\r"), "abc\r");
    assert_eq!(strip_carriage_return("abc"), "abc");
    assert_eq!(strip_carriage_return(""), "");
}

#[test]
fn starts_with_and_ends_with() {
    assert!(starts_with("gss-v1.uf2", "gss-"));
    assert!(!starts_with("xgss-v1.uf2", "gss-"));
    assert!(starts_with("abc", ""));
    assert!(!starts_with("ab", "abc"));
    assert!(ends_with("gss-v1.uf2", ".uf2"));
    assert!(!ends_with("gss-v1.uf2x", ".uf2"));
    assert!(ends_with("abc", ""));
    assert!(!ends_with("bc", "abc"));
    assert!(starts_with("[1]", "["));
}

#[test]
fn strip_leading_takes_every_copy() {
    assert_eq!(strip_leading("gss-v01.00", "gss-"), "v01.00");
    assert_eq!(strip_leading("gss-gss-v01.00", "gss-"), "v01.00");
    assert_eq!(strip_leading("v01.00", "gss-"), "v01.00");
    assert_eq!(strip_leading("abc", ""), "abc");
    assert_eq!(strip_leading("aaa", "a"), "");
}

#[test]
fn strip_trailing_takes_every_copy() {
    assert_eq!(strip_trailing("v01.00-v1.uf2", "-v1.uf2"), "v01.00");
    assert_eq!(strip_trailing("v01.00-v1.uf2-v1.uf2", "-v1.uf2"), "v01.00");
    assert_eq!(strip_trailing("v01.00", "-v1.uf2"), "v01.00");
    assert_eq!(strip_trailing("abc", ""), "abc");
    assert_eq!(strip_trailing("aaa", "a"), "");
}

#[test]
fn push_appends_one_character() {
    let mut text = String::from("ab");
    text.push('c');
    assert_eq!(text, "abc");
}
