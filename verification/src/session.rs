//! Session state: the working directory shown in the prompt and the
//! termination flag the loop reads at the top of each turn.

use vstd::prelude::*;

verus! {

/// The interpreter's state for one run.
///
/// `current_directory` always reflects the directory the host last
/// reported; it is mutated only when a change of directory completes.
/// `terminating` is set by the `exit` built-in, or when the host can no
/// longer report a working directory, and is never cleared.
pub struct Session {
    current_directory: String,
    terminating: bool,
}

impl Session {
    /// The directory the session currently reports.
    pub closed spec fn current_dir(self) -> Seq<char> {
        self.current_directory@
    }

    /// Whether the session has been asked to terminate.
    pub closed spec fn is_terminating(self) -> bool {
        self.terminating
    }

    /// The `exit` transition on session state: the flag is set and
    /// everything else is kept.
    pub closed spec fn exit_step(self) -> Session {
        Session { terminating: true, ..self }
    }

    /// What `exit_step` does to the observable state.
    pub proof fn lemma_exit_step(self)
        ensures
            self.exit_step().is_terminating(),
            self.exit_step().current_dir() == self.current_dir(),
    {
    }

    /// Requesting termination is idempotent: a second `exit` changes
    /// nothing and has no further effect.
    pub proof fn lemma_exit_idempotent(self)
        ensures
            self.exit_step().exit_step() == self.exit_step(),
    {
    }

    /// Termination is absorbing: no transition clears the flag.
    pub proof fn lemma_exit_absorbing(self)
        requires
            self.is_terminating(),
        ensures
            self.exit_step() == self,
    {
    }

    /// Begin a session at the directory the host reported.
    pub fn new(current_directory: String) -> (s: Session)
        ensures
            s.current_dir() == current_directory@,
            !s.is_terminating(),
    {
        Session { current_directory, terminating: false }
    }

    /// The termination flag, read once at the top of each loop turn.
    pub fn should_terminate(&self) -> (r: bool)
        ensures
            r == self.is_terminating(),
    {
        self.terminating
    }

    /// The directory the prompt displays.
    pub fn current_directory(&self) -> (r: &str)
        ensures
            r@ == self.current_dir(),
    {
        self.current_directory.as_str()
    }

    /// The `exit` built-in: request termination.
    pub fn request_exit(&mut self)
        ensures
            *final(self) == old(self).exit_step(),
    {
        if self.terminating {
            return ;
        }
        self.terminating = true;
    }

    /// Record the canonical directory the host reported after a
    /// successful change of directory.
    pub(crate) fn set_current_directory(&mut self, d: String)
        ensures
            final(self).current_dir() == d@,
            final(self).is_terminating() == old(self).is_terminating(),
    {
        self.current_directory = d;
    }

    /// Record that the host could not report the working directory: the
    /// session has no known location left, so it must terminate.
    pub(crate) fn fail_directory_fetch(&mut self)
        ensures
            final(self).is_terminating(),
            final(self).current_dir() == old(self).current_dir(),
    {
        self.terminating = true;
    }

    /// Render the prompt shown before each read, with no trailing
    /// newline.
    pub fn prompt_line(&self) -> (r: String)
        ensures
            r@ == "mbash@ "@ + self.current_dir() + ": "@,
    {
        let mut p = String::from_str("mbash@ ");
        p.append(self.current_directory.as_str());
        p.append(": ");
        proof {
            assert(p@ =~= "mbash@ "@ + self.current_dir() + ": "@);
        }
        p
    }
}

} // verus!
