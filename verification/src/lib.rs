//! Utility for running a command in a subprocess.
//!
//! The [`Command`] type describes a subprocess invocation: program,
//! arguments, working directory, environment policy, how the child's
//! output streams are handled, and whether a non-success exit is
//! reported as an error.  The crate verifies the whole decision side
//! of that pipeline: building and mutating the configuration,
//! formatting the command line for announcement and error messages,
//! and turning the observed outcome of a spawn into either an
//! [`Output`] or an [`Error`] under the configured policies.
//!
//! The actual spawn is platform work that a host program performs;
//! it feeds the observed [`SpawnOutcome`] back into
//! [`Command::conclude`], which applies the capture, merge and
//! success-check policies and decides what is returned and what
//! diagnostic, if any, is emitted.

mod command;
mod errors;
mod outcome;
mod output;
mod status;
mod text;

pub use command::Command;
pub use command::LogTo;
pub use errors::Error;
pub use errors::ErrorKind;
pub use outcome::RunOutcome;
pub use outcome::SpawnOutcome;
pub use output::Output;
pub use status::ExitStatus;
