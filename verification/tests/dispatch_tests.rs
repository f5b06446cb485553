//! Classification of token sequences into dispatch targets.

use mbash::dispatch::classify;
use mbash::dispatch::internal_prefix;
use mbash::dispatch::BuiltinKind;
use mbash::dispatch::Directive;

fn toks(words: &[&str]) -> Vec<String> {
    words.iter().map(|w| w.to_string()).collect()
}

#[test]
fn classify_no_tokens_is_empty() {
    assert!(matches!(classify(&toks(&[])), Directive::Empty));
}

#[test]
fn classify_cd_is_builtin() {
    match classify(&toks(&["cd", "/tmp"])) {
        Directive::Builtin { which, args } => {
            assert_eq!(which, BuiltinKind::Cd);
            assert_eq!(args, vec!["/tmp".to_string()]);
        }
        _ => panic!("cd must classify as a built-in"),
    }
}

#[test]
fn classify_exit_is_builtin() {
    match classify(&toks(&["exit"])) {
        Directive::Builtin { which, args } => {
            assert_eq!(which, BuiltinKind::Exit);
            assert!(args.is_empty());
        }
        _ => panic!("exit must classify as a built-in"),
    }
}

#[test]
fn classify_builtin_shadows_external() {
    // Even if an external program named `cd` sits on the search path,
    // the bare name never reaches the external executor.
    let d = classify(&toks(&["cd", "somewhere"]));
    assert!(!matches!(d, Directive::External { .. }));
    assert!(matches!(
        d,
        Directive::Builtin { which: BuiltinKind::Cd, .. }
    ));
}

#[test]
fn classify_prefix_routes_to_internal_namespace() {
    match classify(&toks(&["m", "init"])) {
        Directive::Internal { name, args } => {
            assert_eq!(name, "init");
            assert!(args.is_empty());
        }
        _ => panic!("'m init' must classify as internal"),
    }
}

#[test]
fn classify_prefix_keeps_arguments() {
    match classify(&toks(&["m", "init", "x", "y"])) {
        Directive::Internal { name, args } => {
            assert_eq!(name, "init");
            assert_eq!(args, vec!["x".to_string(), "y".to_string()]);
        }
        _ => panic!("'m init x y' must classify as internal"),
    }
}

#[test]
fn classify_prefix_alone_is_noop() {
    assert!(matches!(classify(&toks(&["m"])), Directive::PrefixOnly));
}

#[test]
fn classify_unknown_name_is_external() {
    match classify(&toks(&["ls", "-la"])) {
        Directive::External { name, args } => {
            assert_eq!(name, "ls");
            assert_eq!(args, vec!["-la".to_string()]);
        }
        _ => panic!("an unknown name must forward to the external executor"),
    }
}

#[test]
fn internal_prefix_is_m() {
    assert_eq!(internal_prefix(), "m");
}
