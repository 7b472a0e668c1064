use tull::text::{char_to_digit, concat_text, decimal_text, join_text, push_decimal, same_text, split_text};

fn strings(items: &[&str]) -> Vec<String> {
    items.iter().map(|s| s.to_string()).collect()
}

#[test]
fn split_text_without_separator_is_one_piece() {
    assert_eq!(split_text("hello", '\n'), strings(&["hello"]));
}

#[test]
fn split_text_of_empty_text_is_one_empty_piece() {
    assert_eq!(split_text("", '\n'), strings(&[""]));
}

#[test]
fn split_text_keeps_empty_pieces() {
    assert_eq!(split_text("a\n\nb\n", '\n'), strings(&["a", "", "b", ""]));
    assert_eq!(split_text("/a", '/'), strings(&["", "a"]));
    assert_eq!(split_text("//", '/'), strings(&["", "", ""]));
}

#[test]
fn split_text_agrees_with_std_split() {
    for text in ["", "a", "a.b", ".a.", "..", "1.2.3.4", "é.ü", "a\nb"] {
        let expected: Vec<String> = text.split('.').map(|s| s.to_string()).collect();
        assert_eq!(split_text(text, '.'), expected);
    }
}

#[test]
fn join_text_puts_separator_between_parts() {
    assert_eq!(join_text(&strings(&["a", "b"]), '\n'), "a\nb");
    assert_eq!(join_text(&strings(&["a"]), '\n'), "a");
    assert_eq!(join_text(&strings(&[]), '\n'), "");
    assert_eq!(join_text(&strings(&["", ""]), '/'), "/");
    assert_eq!(join_text(&strings(&["a", "", "b"]), ','), "a,,b");
}

#[test]
fn join_after_split_gives_text_back() {
    for text in ["", "a", "a\nb", "a\nb\n", "\n\n", "line one\nline two\n\nlast"] {
        assert_eq!(join_text(&split_text(text, '\n'), '\n'), text);
    }
}

#[test]
fn split_after_join_gives_parts_back() {
    let parts = strings(&["alpha", "", "beta", "gamma"]);
    assert_eq!(split_text(&join_text(&parts, '\n'), '\n'), parts);
}

#[test]
fn concat_text_writes_parts_without_separator() {
    assert_eq!(concat_text(&strings(&["ab", "cd", "", "e"])), "abcde");
    assert_eq!(concat_text(&strings(&[])), "");
}

#[test]
fn same_text_compares_characters() {
    assert!(same_text("", ""));
    assert!(same_text("tull", "tull"));
    assert!(!same_text("tull", "tul"));
    assert!(!same_text("tul", "tull"));
    assert!(!same_text("tull", "tulL"));
    assert!(same_text("é", "é"));
    assert!(!same_text("GET", "get"));
}

#[test]
fn decimal_text_writes_numbers() {
    assert_eq!(decimal_text(0), "0");
    assert_eq!(decimal_text(7), "7");
    assert_eq!(decimal_text(10), "10");
    assert_eq!(decimal_text(17171), "17171");
    assert_eq!(decimal_text(65535), "65535");
    assert_eq!(decimal_text(u64::MAX), "18446744073709551615");
}

#[test]
fn push_decimal_appends_to_what_is_there() {
    let mut out = String::from("port ");
    push_decimal(&mut out, 8080);
    assert_eq!(out, "port 8080");
}

#[test]
fn char_to_digit_knows_the_ten_digits_only() {
    assert_eq!(char_to_digit('0'), Some(0));
    assert_eq!(char_to_digit('5'), Some(5));
    assert_eq!(char_to_digit('9'), Some(9));
    assert_eq!(char_to_digit('a'), None);
    assert_eq!(char_to_digit('+'), None);
    assert_eq!(char_to_digit(' '), None);
    assert_eq!(char_to_digit('٣'), None);
}
