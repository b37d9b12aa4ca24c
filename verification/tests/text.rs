use ssh_git_fw::text::{decimal_text, same_text, split_once, starts_with};

#[test]
fn numbers_are_written_in_decimal_notation() {
    assert_eq!(decimal_text(0), "0");
    assert_eq!(decimal_text(9), "9");
    assert_eq!(decimal_text(10), "10");
    assert_eq!(decimal_text(usize::MAX), usize::MAX.to_string());
}

#[test]
fn texts_are_compared_and_taken_apart() {
    assert!(same_text("é", "é"));
    assert!(!same_text("é", "e"));
    assert!(!same_text("e", ""));
    assert!(starts_with("éa", "é"));
    assert!(starts_with("a", ""));
    assert!(!starts_with("", "a"));
    assert_eq!(split_once("é b c", ' '), Some(("é", "b c")));
    assert_eq!(split_once(" b", ' '), Some(("", "b")));
    assert_eq!(split_once("b ", ' '), Some(("b", "")));
    assert_eq!(split_once("b", ' '), None);
}
