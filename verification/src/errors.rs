//! The error reported by a run, carrying the originating command.

use crate::command::command_line_text;
use crate::command::Command;
use crate::status::status_text;
use crate::status::ExitStatus;
use vstd::prelude::*;
use vstd::string::StringExecFns;

verus! {

/// Type of error.
#[derive(Debug)]
pub enum ErrorKind {
    /// An error occurred in the calls used to run the command; the
    /// carried text renders the underlying OS error. For example, this
    /// variant is used if the program does not exist.
    Run(String),

    /// The command exited non-zero or due to a signal.
    Exit(ExitStatus),
}

/// Error produced by a failed run.
#[derive(Debug)]
pub struct Error {
    /// The command that caused the error.
    pub command: Command,

    /// The type of error.
    pub kind: ErrorKind,
}

/// The message reporting a checked failure of a completed command.
pub open spec fn failure_line(c: Command, st: ExitStatus) -> Seq<char> {
    "command '"@ + command_line_text(c) + "' failed: "@ + status_text(st)
}

/// The full rendering of an error: for a launch failure the command
/// line and the OS error, for an exit failure the command line and the
/// exit status.
pub open spec fn error_text(e: Error) -> Seq<char> {
    match e.kind {
        ErrorKind::Run(m) => "failed to run '"@ + command_line_text(e.command) + "': "@ + m@,
        ErrorKind::Exit(st) => failure_line(e.command, st),
    }
}

/// The message reporting a checked failure, e.g.
/// `command 'foo' failed: exit status: 1`.
pub(crate) fn failure_line_string(c: &Command, st: &ExitStatus) -> (r: String)
    ensures
        r@ == failure_line(*c, *st),
{
    let prefix = String::from_str("command '");
    prefix.concat(c.command_line_lossy().as_str()).concat("' failed: ").concat(
        st.display_string().as_str(),
    )
}

impl Error {
    /// Check if the error kind is `Run`.
    pub fn is_run_error(&self) -> (r: bool)
        ensures
            r == (self.kind is Run),
    {
        matches!(self.kind, ErrorKind::Run(_))
    }

    /// Check if the error kind is `Exit`.
    pub fn is_exit_error(&self) -> (r: bool)
        ensures
            r == (self.kind is Exit),
    {
        matches!(self.kind, ErrorKind::Exit(_))
    }

    /// Render the error as a message, as described by [`error_text`].
    pub fn message(&self) -> (r: String)
        ensures
            r@ == error_text(*self),
    {
        match &self.kind {
            ErrorKind::Run(m) => {
                let prefix = String::from_str("failed to run '");
                prefix.concat(self.command.command_line_lossy().as_str()).concat("': ").concat(
                    m.as_str(),
                )
            },
            ErrorKind::Exit(st) => failure_line_string(&self.command, st),
        }
    }
}

} // verus!
