//! The dispatching step of the interpreter loop.
//!
//! One turn of the loop is: the host reads a line and hands it to
//! [`Session::handle_input`], which tokenizes, classifies and executes
//! the in-process part of the command, and returns the outside work that
//! is left as an [`Action`] together with the diagnostics to log.  The
//! host performs the action and reports what it observed through
//! [`Session::finish_change_dir`] or [`report_spawn_outcome`]; those
//! decide what the outcome means for the session and for the log.

use vstd::prelude::*;

use crate::diag::Diagnostic;
use crate::dispatch::BuiltinKind;
use crate::dispatch::Directive;
use crate::dispatch::DirectiveModel;
use crate::dispatch::classify;
use crate::dispatch::classify_spec;
use crate::session::Session;
use crate::tokenizer::str_eq;
use crate::tokenizer::tokenize;
use crate::tokenizer::tokens_of;

verus! {

/// The outside work one dispatch leaves for the host.
pub enum Action {
    /// No outside work this turn.
    Nothing,
    /// Change the process's working directory to `dir`, re-fetch the
    /// canonical directory, and report through
    /// [`Session::finish_change_dir`].
    ChangeDir { dir: String },
    /// Launch the named external program with exactly these arguments,
    /// inheriting the interpreter's standard streams and working
    /// directory, wait for it, and report through
    /// [`report_spawn_outcome`].
    Spawn { name: String, args: Vec<String> },
    /// Make sure the two bookkeeping files exist, creating empty ones
    /// where they are absent.
    EnsureBookkeeping,
}

/// What the host observed while changing directory.
pub enum ChangeDirOutcome {
    /// The change succeeded and the host reported the new canonical
    /// directory.
    Changed { new_dir: String },
    /// The host refused the change; nothing happened.
    ChangeFailed { err: String },
    /// The change succeeded but the host could not report the resulting
    /// directory, so the session has lost its location.
    FetchFailed { err: String },
}

/// What the host observed while running an external program.
pub enum SpawnOutcome {
    /// The program ran to completion with this exit status.
    Exited { code: i32 },
    /// The program never ran.
    LaunchFailed { err: String },
}

/// The file that records what is being tracked.
pub fn tracking_file_name() -> (r: &'static str)
    ensures
        r@ == ".mtracking"@,
{
    ".mtracking"
}

/// The file that records what is being ignored.
pub fn ignore_file_name() -> (r: &'static str)
    ensures
        r@ == ".mignoring"@,
{
    ".mignoring"
}

impl Session {
    /// Dispatch one line of input: tokenize it, classify it, execute the
    /// in-process part, and return the outside work that is left,
    /// together with the diagnostics this turn produced.
    ///
    /// Every path returns; no input, including an empty argument list,
    /// escalates past this function.
    pub fn handle_input(&mut self, line: &str) -> (r: (Action, Vec<Diagnostic>))
        ensures
            final(self).current_dir() == old(self).current_dir(),
            old(self).is_terminating() ==> final(self).is_terminating(),
            ({
                let d = classify_spec(tokens_of(line@));
                &&& (d is Empty ==> *final(self) == *old(self) && r.0 is Nothing && r.1@.len() == 1
                    && r.1@[0] is EmptyInput)
                &&& (d is PrefixOnly ==> *final(self) == *old(self) && r.0 is Nothing && r.1@.len()
                    == 1 && r.1@[0] is MissingInternalCommand)
                &&& (d matches DirectiveModel::Builtin { which, args } ==> {
                    if which == BuiltinKind::Cd {
                        if args.len() == 0 || args[0].len() == 0 {
                            *final(self) == *old(self) && r.0 is Nothing && r.1@.len() == 1
                                && r.1@[0] is CdMissingArgument
                        } else {
                            *final(self) == *old(self) && (r.0 matches Action::ChangeDir { dir }
                                && dir@ == args[0]) && r.1@.len() == 0
                        }
                    } else {
                        *final(self) == old(self).exit_step() && r.0 is Nothing && r.1@.len() == 0
                    }
                })
                &&& (d matches DirectiveModel::Internal { name, args } ==> {
                    if name == "init"@ {
                        *final(self) == *old(self) && r.0 is EnsureBookkeeping && r.1@.len() == 0
                    } else {
                        *final(self) == *old(self) && r.0 is Nothing && r.1@.len() == 1 && (r.1@[0]
                            matches Diagnostic::UnknownInternalCommand { name: n } && n@ == name)
                    }
                })
                &&& (d matches DirectiveModel::External { name, args } ==> *final(self) == *old(
                    self,
                ) && (r.0 matches Action::Spawn { name: n, args: a } && n@ == name && a.deep_view()
                    == args) && r.1@.len() == 0)
            }),
    {
        let tokens = tokenize(line);
        let d = classify(&tokens);
        match d {
            Directive::Empty => (Action::Nothing, vec![Diagnostic::EmptyInput]),
            Directive::PrefixOnly => (Action::Nothing, vec![Diagnostic::MissingInternalCommand]),
            Directive::Builtin { which: BuiltinKind::Cd, args } => {
                if args.len() == 0 {
                    (Action::Nothing, vec![Diagnostic::CdMissingArgument])
                } else {
                    let dir = args[0].clone();
                    if dir.as_str().is_empty() {
                        (Action::Nothing, vec![Diagnostic::CdMissingArgument])
                    } else {
                        (Action::ChangeDir { dir }, vec![])
                    }
                }
            },
            Directive::Builtin { which: BuiltinKind::Exit, args: _ } => {
                let ghost pre = *self;
                self.request_exit();
                proof {
                    pre.lemma_exit_step();
                }
                (Action::Nothing, vec![])
            },
            Directive::Internal { name, args: _ } => {
                if str_eq(name.as_str(), "init") {
                    (Action::EnsureBookkeeping, vec![])
                } else {
                    (Action::Nothing, vec![Diagnostic::UnknownInternalCommand { name }])
                }
            },
            Directive::External { name, args } => (Action::Spawn { name, args }, vec![]),
        }
    }

    /// Absorb the outcome of the change of directory the last dispatch
    /// asked for.  `dir` is the directory that was requested, for the
    /// diagnostic.
    ///
    /// On success the session takes the canonical directory the host
    /// reported, never one computed locally.  On refusal the session is
    /// left exactly as it was, with one error diagnostic.  If the host
    /// could change but not report the directory, the session has no
    /// known location and terminates.
    pub fn finish_change_dir(&mut self, dir: &str, outcome: ChangeDirOutcome) -> (diags: Vec<
        Diagnostic,
    >)
        ensures
            old(self).is_terminating() ==> final(self).is_terminating(),
            (outcome matches ChangeDirOutcome::Changed { new_dir } ==> final(self).current_dir()
                == new_dir@ && final(self).is_terminating() == old(self).is_terminating()
                && diags@.len() == 1 && (diags@[0] matches Diagnostic::DirectoryChanged { dir: d }
                && d@ == dir@)),
            (outcome matches ChangeDirOutcome::ChangeFailed { err } ==> *final(self) == *old(self)
                && diags@.len() == 1 && (diags@[0] matches Diagnostic::ChangeDirFailed {
                dir: d,
                err: e,
            } && d@ == dir@ && e@ == err@)),
            (outcome matches ChangeDirOutcome::FetchFailed { err } ==> final(self).is_terminating()
                && final(self).current_dir() == old(self).current_dir() && diags@.len() == 1 && (
            diags@[0] matches Diagnostic::DirectoryFetchFailed { err: e } && e@ == err@)),
    {
        match outcome {
            ChangeDirOutcome::Changed { new_dir } => {
                self.set_current_directory(new_dir);
                vec![Diagnostic::DirectoryChanged { dir: dir.to_owned() }]
            },
            ChangeDirOutcome::ChangeFailed { err } => {
                vec![Diagnostic::ChangeDirFailed { dir: dir.to_owned(), err }]
            },
            ChangeDirOutcome::FetchFailed { err } => {
                self.fail_directory_fetch();
                vec![Diagnostic::DirectoryFetchFailed { err }]
            },
        }
    }
}

/// Decide what the outcome of an external program means: a zero exit
/// status is routine, a nonzero one is a command failure, and a launch
/// failure is reported distinctly, because the program never ran.  None
/// of them is fatal to the interpreter.
pub fn report_spawn_outcome(name: &str, outcome: SpawnOutcome) -> (d: Diagnostic)
    ensures
        (outcome matches SpawnOutcome::Exited { code } ==> {
            if code == 0 {
                d matches Diagnostic::ExternalSucceeded { name: n } && n@ == name@
            } else {
                d matches Diagnostic::ExternalFailed { name: n, code: c } && n@ == name@ && c
                    == code
            }
        }),
        (outcome matches SpawnOutcome::LaunchFailed { err } ==> (
        d matches Diagnostic::LaunchFailed { name: n, err: e } && n@ == name@ && e@ == err@)),
{
    match outcome {
        SpawnOutcome::Exited { code } => {
            if code == 0 {
                Diagnostic::ExternalSucceeded { name: name.to_owned() }
            } else {
                Diagnostic::ExternalFailed { name: name.to_owned(), code }
            }
        },
        SpawnOutcome::LaunchFailed { err } => {
            Diagnostic::LaunchFailed { name: name.to_owned(), err }
        },
    }
}

} // verus!
