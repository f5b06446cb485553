//! Splitting bookkeeping file contents into entries.

use mbash::lines::split_lines;

#[test]
fn split_lines_basic() {
    assert_eq!(
        split_lines("a\nb\nc"),
        vec!["a".to_string(), "b".to_string(), "c".to_string()]
    );
}

#[test]
fn split_lines_empty_input_is_one_empty_entry() {
    assert_eq!(split_lines(""), vec!["".to_string()]);
}

#[test]
fn split_lines_keeps_empty_parts() {
    assert_eq!(
        split_lines("a\n\nb\n"),
        vec![
            "a".to_string(),
            "".to_string(),
            "b".to_string(),
            "".to_string()
        ]
    );
}

#[test]
fn split_lines_no_newline() {
    assert_eq!(split_lines("only"), vec!["only".to_string()]);
}
