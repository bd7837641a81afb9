//! The output of a finished process.

use crate::status::ExitStatus;
use crate::text;
use vstd::prelude::*;

verus! {

/// The output of a finished process.
#[derive(Clone, Debug, PartialEq, Eq)]
pub struct Output {
    /// The status (exit code) of the process.
    pub status: ExitStatus,

    /// The data that the process wrote to stdout.
    pub stdout: Vec<u8>,

    /// The data that the process wrote to stderr.
    pub stderr: Vec<u8>,
}

impl Output {
    /// Get stdout as a string, invalid UTF-8 replaced lossily.
    pub fn stdout_string_lossy(&self) -> (r: String)
        ensures
            r@ == text::lossy_of(self.stdout@),
            text::ascii_bytes(self.stdout@) ==> r@ == text::chars_of_ascii(self.stdout@),
    {
        text::bytes_to_string_lossy(&self.stdout)
    }

    /// Get stderr as a string, invalid UTF-8 replaced lossily.
    pub fn stderr_string_lossy(&self) -> (r: String)
        ensures
            r@ == text::lossy_of(self.stderr@),
            text::ascii_bytes(self.stderr@) ==> r@ == text::chars_of_ascii(self.stderr@),
    {
        text::bytes_to_string_lossy(&self.stderr)
    }
}

} // verus!
