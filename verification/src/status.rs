//! The exit status of a finished child process.

use crate::text;
use vstd::prelude::*;
use vstd::string::StringExecFns;

verus! {

/// How a child process ended: with an exit code, or killed by a signal.
#[derive(Clone, Copy, Debug, PartialEq, Eq, Structural)]
pub enum ExitStatus {
    /// The process exited on its own with the given code.
    Code(i32),
    /// The process was terminated by the given signal.
    Signal(i32),
}

/// The textual rendering of an exit status, as it appears in error and
/// diagnostic messages.
pub open spec fn status_text(st: ExitStatus) -> Seq<char> {
    match st {
        ExitStatus::Code(c) => "exit status: "@ + text::dec_int(c as int),
        ExitStatus::Signal(s) => "signal: "@ + text::dec_int(s as int),
    }
}

impl ExitStatus {
    /// Whether the status is a clean zero-code success.
    pub fn success(&self) -> (r: bool)
        ensures
            r == (*self == ExitStatus::Code(0)),
    {
        match self {
            ExitStatus::Code(c) => *c == 0,
            ExitStatus::Signal(_) => false,
        }
    }

    /// Render the status as text, e.g. `exit status: 1` or `signal: 9`.
    pub fn display_string(&self) -> (r: String)
        ensures
            r@ == status_text(*self),
    {
        match self {
            ExitStatus::Code(c) => {
                let prefix = String::from_str("exit status: ");
                prefix.concat(text::dec_string_i64(*c as i64).as_str())
            },
            ExitStatus::Signal(s) => {
                let prefix = String::from_str("signal: ");
                prefix.concat(text::dec_string_i64(*s as i64).as_str())
            },
        }
    }
}

} // verus!
