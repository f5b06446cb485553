//! Tokenizer behaviour on concrete lines.

use mbash::tokenizer::str_eq;
use mbash::tokenizer::tokenize;

#[test]
fn tokenize_splits_on_whitespace_runs() {
    let tokens = tokenize("  ls   -la  ");
    assert_eq!(tokens, vec!["ls".to_string(), "-la".to_string()]);
}

#[test]
fn tokenize_empty_line() {
    let tokens = tokenize("");
    assert!(tokens.is_empty());
}

#[test]
fn tokenize_blank_line() {
    let tokens = tokenize(" \t \r\n");
    assert!(tokens.is_empty());
}

#[test]
fn tokenize_single_token() {
    let tokens = tokenize("exit");
    assert_eq!(tokens, vec!["exit".to_string()]);
}

#[test]
fn tokenize_keeps_order_and_drops_empties() {
    let tokens = tokenize("a b\t\tc  d");
    assert_eq!(
        tokens,
        vec!["a".to_string(), "b".to_string(), "c".to_string(), "d".to_string()]
    );
    for t in &tokens {
        assert!(!t.is_empty());
    }
}

#[test]
fn tokenize_mixed_whitespace_kinds() {
    let tokens = tokenize("\tcd\r\n/tmp ");
    assert_eq!(tokens, vec!["cd".to_string(), "/tmp".to_string()]);
}

#[test]
fn str_eq_agrees_with_equality() {
    assert!(str_eq("cd", "cd"));
    assert!(str_eq("", ""));
    assert!(!str_eq("cd", "cde"));
    assert!(!str_eq("cd", "ce"));
    assert!(!str_eq("m", ""));
}
