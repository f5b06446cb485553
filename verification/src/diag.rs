//! Leveled diagnostics: the events the interpreter reports to the
//! logging collaborator.
//!
//! The interpreter never inspects the collaborator's behaviour; it only
//! produces these values.  Each diagnostic renders to exactly one message,
//! so a dispatch path that returns one diagnostic is a dispatch path that
//! causes exactly one log line.

use vstd::prelude::*;

use crate::numbers::dec_int;
use crate::numbers::i32_string;

verus! {

/// Severity of a diagnostic, for the logging collaborator.
#[derive(Clone, Copy, PartialEq, Eq, Structural, Debug)]
pub enum LogLevel {
    Debug,
    Info,
    Error,
}

/// One reportable event, with the data its message is built from.
pub enum Diagnostic {
    /// The line held no tokens at all.
    EmptyInput,
    /// The internal prefix arrived with no command name after it.
    MissingInternalCommand,
    /// An internal-namespace command this interpreter does not provide.
    UnknownInternalCommand { name: String },
    /// `cd` was called without a non-empty directory argument.
    CdMissingArgument,
    /// The working directory changed to the requested one.
    DirectoryChanged { dir: String },
    /// The host refused to change to the requested directory.
    ChangeDirFailed { dir: String, err: String },
    /// The host could not report the working directory at all.
    DirectoryFetchFailed { err: String },
    /// An external program ran and exited successfully.
    ExternalSucceeded { name: String },
    /// An external program ran and exited with a failure status.
    ExternalFailed { name: String, code: i32 },
    /// An external program could not be launched.
    LaunchFailed { name: String, err: String },
    /// The prompt could not be flushed to the host's output.
    FlushFailed { err: String },
    /// No line could be read from the host's input.
    ReadFailed { err: String },
}

impl Diagnostic {
    /// The severity this diagnostic is reported at.  Failures are
    /// errors; the routine notices are kept at low visibility.
    pub open spec fn spec_level(self) -> LogLevel {
        match self {
            Diagnostic::EmptyInput => LogLevel::Debug,
            Diagnostic::MissingInternalCommand => LogLevel::Debug,
            Diagnostic::UnknownInternalCommand { .. } => LogLevel::Error,
            Diagnostic::CdMissingArgument => LogLevel::Debug,
            Diagnostic::DirectoryChanged { .. } => LogLevel::Debug,
            Diagnostic::ChangeDirFailed { .. } => LogLevel::Error,
            Diagnostic::DirectoryFetchFailed { .. } => LogLevel::Error,
            Diagnostic::ExternalSucceeded { .. } => LogLevel::Debug,
            Diagnostic::ExternalFailed { .. } => LogLevel::Error,
            Diagnostic::LaunchFailed { .. } => LogLevel::Error,
            Diagnostic::FlushFailed { .. } => LogLevel::Error,
            Diagnostic::ReadFailed { .. } => LogLevel::Error,
        }
    }

    /// The message this diagnostic renders to, character for character.
    pub open spec fn message_spec(self) -> Seq<char> {
        match self {
            Diagnostic::EmptyInput => "Empty input line."@,
            Diagnostic::MissingInternalCommand => "Internal prefix given without a command name."@,
            Diagnostic::UnknownInternalCommand { name } => "Unknown internal command '"@ + name@
                + "'."@,
            Diagnostic::CdMissingArgument => "'cd' requires a directory argument [cd <directory>]."@,
            Diagnostic::DirectoryChanged { dir } => "Changed directory to '"@ + dir@ + "'."@,
            Diagnostic::ChangeDirFailed { dir, err } => "Failed to change directory to '"@ + dir@
                + "': "@ + err@,
            Diagnostic::DirectoryFetchFailed { err } => "Failed to fetch current directory path: "@
                + err@,
            Diagnostic::ExternalSucceeded { name } => "Command '"@ + name@
                + "' completed successfully."@,
            Diagnostic::ExternalFailed { name, code } => "Command '"@ + name@
                + "' exited with status "@ + dec_int(code as int) + "."@,
            Diagnostic::LaunchFailed { name, err } => "Failed to launch '"@ + name@ + "': "@ + err@,
            Diagnostic::FlushFailed { err } => "Failed to flush output: "@ + err@,
            Diagnostic::ReadFailed { err } => "Failed to read input: "@ + err@,
        }
    }

    /// The severity, for the logging collaborator.
    pub fn level(&self) -> (r: LogLevel)
        ensures
            r == self.spec_level(),
    {
        match self {
            Diagnostic::EmptyInput => LogLevel::Debug,
            Diagnostic::MissingInternalCommand => LogLevel::Debug,
            Diagnostic::UnknownInternalCommand { .. } => LogLevel::Error,
            Diagnostic::CdMissingArgument => LogLevel::Debug,
            Diagnostic::DirectoryChanged { .. } => LogLevel::Debug,
            Diagnostic::ChangeDirFailed { .. } => LogLevel::Error,
            Diagnostic::DirectoryFetchFailed { .. } => LogLevel::Error,
            Diagnostic::ExternalSucceeded { .. } => LogLevel::Debug,
            Diagnostic::ExternalFailed { .. } => LogLevel::Error,
            Diagnostic::LaunchFailed { .. } => LogLevel::Error,
            Diagnostic::FlushFailed { .. } => LogLevel::Error,
            Diagnostic::ReadFailed { .. } => LogLevel::Error,
        }
    }

    /// Render the message, exactly as `message_spec` states it.
    pub fn message(&self) -> (r: String)
        ensures
            r@ == self.message_spec(),
    {
        let r = match self {
            Diagnostic::EmptyInput => String::from_str("Empty input line."),
            Diagnostic::MissingInternalCommand => String::from_str(
                "Internal prefix given without a command name.",
            ),
            Diagnostic::UnknownInternalCommand { name } => String::from_str(
                "Unknown internal command '",
            ).concat(name.as_str()).concat("'."),
            Diagnostic::CdMissingArgument => String::from_str(
                "'cd' requires a directory argument [cd <directory>].",
            ),
            Diagnostic::DirectoryChanged { dir } => String::from_str("Changed directory to '")
                .concat(dir.as_str()).concat("'."),
            Diagnostic::ChangeDirFailed { dir, err } => String::from_str(
                "Failed to change directory to '",
            ).concat(dir.as_str()).concat("': ").concat(err.as_str()),
            Diagnostic::DirectoryFetchFailed { err } => String::from_str(
                "Failed to fetch current directory path: ",
            ).concat(err.as_str()),
            Diagnostic::ExternalSucceeded { name } => String::from_str("Command '").concat(
                name.as_str(),
            ).concat("' completed successfully."),
            Diagnostic::ExternalFailed { name, code } => String::from_str("Command '").concat(
                name.as_str(),
            ).concat("' exited with status ").concat(i32_string(*code).as_str()).concat("."),
            Diagnostic::LaunchFailed { name, err } => String::from_str("Failed to launch '").concat(
                name.as_str(),
            ).concat("': ").concat(err.as_str()),
            Diagnostic::FlushFailed { err } => String::from_str("Failed to flush output: ").concat(
                err.as_str(),
            ),
            Diagnostic::ReadFailed { err } => String::from_str("Failed to read input: ").concat(
                err.as_str(),
            ),
        };
        proof {
            assert(r@ =~= self.message_spec());
        }
        r
    }
}

} // verus!
