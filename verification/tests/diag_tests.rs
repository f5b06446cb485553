//! Diagnostic rendering and decimal formatting.

use mbash::diag::Diagnostic;
use mbash::diag::LogLevel;
use mbash::numbers::i32_string;
use mbash::numbers::u64_string;

#[test]
fn u64_rendering_exact_values() {
    assert_eq!(u64_string(0), "0");
    assert_eq!(u64_string(7), "7");
    assert_eq!(u64_string(10), "10");
    assert_eq!(u64_string(12345), "12345");
    assert_eq!(u64_string(u64::MAX), "18446744073709551615");
}

#[test]
fn i32_rendering_exact_values() {
    assert_eq!(i32_string(0), "0");
    assert_eq!(i32_string(42), "42");
    assert_eq!(i32_string(-1), "-1");
    assert_eq!(i32_string(-123), "-123");
    assert_eq!(i32_string(i32::MIN), "-2147483648");
    assert_eq!(i32_string(i32::MAX), "2147483647");
}

#[test]
fn negative_status_renders_with_sign() {
    let d = Diagnostic::ExternalFailed {
        name: "child".to_string(),
        code: -7,
    };
    assert_eq!(d.level(), LogLevel::Error);
    assert_eq!(d.message(), "Command 'child' exited with status -7.");
}

#[test]
fn loop_level_diagnostics_render() {
    let flush = Diagnostic::FlushFailed {
        err: "broken pipe".to_string(),
    };
    assert_eq!(flush.level(), LogLevel::Error);
    assert_eq!(flush.message(), "Failed to flush output: broken pipe");

    let read = Diagnostic::ReadFailed {
        err: "bad descriptor".to_string(),
    };
    assert_eq!(read.level(), LogLevel::Error);
    assert_eq!(read.message(), "Failed to read input: bad descriptor");
}

#[test]
fn fixed_messages_render() {
    assert_eq!(Diagnostic::EmptyInput.message(), "Empty input line.");
    assert_eq!(
        Diagnostic::MissingInternalCommand.message(),
        "Internal prefix given without a command name."
    );
    assert_eq!(
        Diagnostic::CdMissingArgument.message(),
        "'cd' requires a directory argument [cd <directory>]."
    );
    assert_eq!(Diagnostic::CdMissingArgument.level(), LogLevel::Debug);
}

#[test]
fn fetch_failure_message_names_the_cause() {
    let d = Diagnostic::DirectoryFetchFailed {
        err: "permission denied".to_string(),
    };
    assert_eq!(d.level(), LogLevel::Error);
    assert_eq!(
        d.message(),
        "Failed to fetch current directory path: permission denied"
    );
}
