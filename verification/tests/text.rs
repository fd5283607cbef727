use api::text::{
    chars_of, contains_text, decimal_text, find, join, nth_word, replace_text, split_text,
    string_from, trim,
};

fn v(xs: &[&str]) -> Vec<String> {
    xs.iter().map(|x| x.to_string()).collect()
}

#[test]
fn replace_is_left_to_right_and_non_overlapping() {
    assert_eq!(replace_text("aaaa", "aa", "b"), "bb");
    assert_eq!(replace_text("aaa", "aa", "b"), "ba");
    assert_eq!(replace_text("xyz", "q", "b"), "xyz");
    assert_eq!(replace_text("", "q", "b"), "");
}

#[test]
fn trim_removes_unicode_white_space() {
    let t = trim(&chars_of("\u{3000} \t hi there \n\u{a0}"));
    assert_eq!(string_from(&t), "hi there");
    assert_eq!(string_from(&trim(&chars_of("   "))), "");
}

#[test]
fn find_reports_first_occurrence_in_characters() {
    assert_eq!(find(&chars_of("éa name name"), &chars_of("name")), Some(3));
    assert_eq!(find(&chars_of("abc"), &chars_of("x")), None);
}

#[test]
fn split_then_join_gives_back_the_text() {
    for (text, sep) in [("a,b,,c", ","), ("", ","), ("xx--yy--", "--"), ("no sep", ";")] {
        let pieces = split_text(text, sep);
        assert_eq!(join(&pieces, sep), text);
    }
    assert_eq!(split_text("a--b", "--"), v(&["a", "b"]));
}

#[test]
fn words_skip_runs_of_white_space() {
    assert_eq!(nth_word("  one\t two  three ", 0), Some("one".to_string()));
    assert_eq!(nth_word("  one\t two  three ", 2), Some("three".to_string()));
    assert_eq!(nth_word("  one\t two  three ", 3), None);
}

#[test]
fn decimal_numerals() {
    assert_eq!(decimal_text(0), "0");
    assert_eq!(decimal_text(1234567890), "1234567890");
    assert_eq!(decimal_text(-7), "-7");
    assert_eq!(decimal_text(i64::MAX), "9223372036854775807");
}

#[test]
fn contains_finds_texts() {
    assert!(contains_text(&v(&["a", "b"]), "b"));
    assert!(!contains_text(&v(&["a", "b"]), "c"));
}
