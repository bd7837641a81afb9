//! Turning the observed outcome of a spawn into a result or an error.
//!
//! Spawning and waiting are platform work performed by the host
//! program; what it observed is reported as a [`SpawnOutcome`] and
//! handed to [`Command::conclude`], which applies the configured
//! capture, merge and success-check policies.

use crate::command::Command;
use crate::errors::failure_line;
use crate::errors::failure_line_string;
use crate::errors::Error;
use crate::errors::ErrorKind;
use crate::output::Output;
use crate::status::ExitStatus;
use crate::text::bytes_to_string_lossy;
use crate::text::lossy_of;
use vstd::prelude::*;
use vstd::string::StringExecFns;

verus! {

/// What the host observed when it tried to spawn the child and wait
/// for it.
#[derive(Clone, Debug)]
pub enum SpawnOutcome {
    /// The process could not be created; carries the rendering of the
    /// underlying OS error.
    Failure {
        /// The rendering of the OS error that prevented the spawn.
        error: String,
    },
    /// The process ran to completion.
    Completion {
        /// How the process ended.
        status: ExitStatus,
        /// The bytes collected from the child's stdout (for merged
        /// output, from the shared stream); empty when not captured.
        stdout: Vec<u8>,
        /// The bytes collected from the child's stderr; empty when not
        /// captured or when merged into stdout.
        stderr: Vec<u8>,
    },
}

/// The mathematical model of what a run yields: a launch failure, an
/// exit failure, or a success with the status and the captured bytes.
pub enum RunModel {
    /// The process could not be created.
    LaunchFailure { command: Command, error: Seq<char> },
    /// The process completed, the success check is enabled, and the
    /// status was not a clean zero-code success.
    ExitFailure { command: Command, status: ExitStatus },
    /// The run succeeded.
    Success { status: ExitStatus, stdout: Seq<u8>, stderr: Seq<u8> },
}

/// What a run of configuration `c` yields once the host has observed
/// `outcome`: a launch failure is passed through; a completed process
/// fails exactly when the success check is enabled and the status is
/// not a clean zero-code success; a success carries the captured bytes,
/// which are empty when capture is off, and whose separate stderr part
/// is empty when the streams are merged.
pub open spec fn run_model(c: Command, outcome: SpawnOutcome) -> RunModel {
    match outcome {
        SpawnOutcome::Failure { error } => RunModel::LaunchFailure {
            command: c,
            error: error@,
        },
        SpawnOutcome::Completion { status, stdout, stderr } => {
            if c.check && status != ExitStatus::Code(0) {
                RunModel::ExitFailure { command: c, status }
            } else {
                RunModel::Success {
                    status,
                    stdout: if c.capture {
                        stdout@
                    } else {
                        Seq::empty()
                    },
                    stderr: if c.capture && !c.combine_output {
                        stderr@
                    } else {
                        Seq::empty()
                    },
                }
            }
        },
    }
}

/// Whether an executable result is the one the model describes.
pub open spec fn result_matches_model(res: Result<Output, Error>, m: RunModel) -> bool {
    match m {
        RunModel::LaunchFailure { command, error } => {
            &&& res matches Err(e)
            &&& e.command == command
            &&& e.kind matches ErrorKind::Run(msg) && msg@ == error
        },
        RunModel::ExitFailure { command, status } => {
            &&& res matches Err(e)
            &&& e.command == command
            &&& e.kind matches ErrorKind::Exit(st) && st == status
        },
        RunModel::Success { status, stdout, stderr } => {
            &&& res matches Ok(o)
            &&& o.status == status
            &&& o.stdout@ == stdout
            &&& o.stderr@ == stderr
        },
    }
}

/// The body of the diagnostic emitted after a checked failure: the
/// failure message followed by the captured output, merged or separate.
pub open spec fn diagnostic_body(
    c: Command,
    status: ExitStatus,
    stdout: Seq<u8>,
    stderr: Seq<u8>,
) -> Seq<char> {
    if c.combine_output {
        failure_line(c, status) + "\noutput:\n"@ + lossy_of(stdout)
    } else {
        failure_line(c, status) + "\nstdout:\n"@ + lossy_of(stdout) + "\nstderr:\n"@ + lossy_of(
            stderr,
        )
    }
}

/// The diagnostic a run emits: present exactly when the process
/// completed, the success check failed, and both capture and
/// log-output-on-error are enabled.
pub open spec fn diagnostic_text(c: Command, outcome: SpawnOutcome) -> Option<Seq<char>> {
    match outcome {
        SpawnOutcome::Failure { .. } => None,
        SpawnOutcome::Completion { status, stdout, stderr } => {
            if c.check && status != ExitStatus::Code(0) && c.capture && c.log_output_on_error {
                Some(diagnostic_body(c, status, stdout@, stderr@))
            } else {
                None
            }
        },
    }
}

/// What concluding a run decides: an optional diagnostic to emit at
/// error level, and the result handed back to the caller.
#[derive(Debug)]
pub struct RunOutcome {
    /// The diagnostic to emit before returning, if any.
    pub diagnostic: Option<String>,
    /// The result of the run.
    pub result: Result<Output, Error>,
}

impl Command {
    /// Apply the output-handling and success-check policies to what the
    /// host observed.  The configuration is consumed; a copy of it is
    /// carried inside any returned error.
    pub fn conclude(self, outcome: SpawnOutcome) -> (r: RunOutcome)
        ensures
            result_matches_model(r.result, run_model(self, outcome)),
            r.diagnostic.deep_view() == diagnostic_text(self, outcome),
    {
        match outcome {
            SpawnOutcome::Failure { error } => RunOutcome {
                diagnostic: None,
                result: Err(Error { command: self, kind: ErrorKind::Run(error) }),
            },
            SpawnOutcome::Completion { status, stdout, stderr } => {
                if self.check && !status.success() {
                    let diagnostic = if self.capture && self.log_output_on_error {
                        let line = failure_line_string(&self, &status);
                        let msg = if self.combine_output {
                            line.concat("\noutput:\n").concat(
                                bytes_to_string_lossy(&stdout).as_str(),
                            )
                        } else {
                            line.concat("\nstdout:\n").concat(
                                bytes_to_string_lossy(&stdout).as_str(),
                            ).concat("\nstderr:\n").concat(bytes_to_string_lossy(&stderr).as_str())
                        };
                        Some(msg)
                    } else {
                        None
                    };
                    RunOutcome {
                        diagnostic,
                        result: Err(Error { command: self, kind: ErrorKind::Exit(status) }),
                    }
                } else {
                    let out = Output {
                        status,
                        stdout: if self.capture {
                            stdout
                        } else {
                            Vec::new()
                        },
                        stderr: if self.capture && !self.combine_output {
                            stderr
                        } else {
                            Vec::new()
                        },
                    };
                    RunOutcome { diagnostic: None, result: Ok(out) }
                }
            },
        }
    }
}

/// Law: with the success check disabled, a run never yields an exit
/// failure, whatever the exit status was.
pub proof fn lemma_unchecked_never_exit_failure(c: Command, outcome: SpawnOutcome)
    requires
        !c.check,
    ensures
        !(run_model(c, outcome) is ExitFailure),
{
}

/// Law: with capture disabled, a successful run's captured byte fields
/// are both empty, whatever the child wrote to its streams.
pub proof fn lemma_uncaptured_output_empty(c: Command, outcome: SpawnOutcome)
    requires
        !c.capture,
    ensures
        run_model(c, outcome) matches RunModel::Success { stdout, stderr, .. } ==> stdout.len()
            == 0 && stderr.len() == 0,
{
}

/// Law: with merged output, a successful run's separate stderr field is
/// empty; everything the host collected from the shared stream is in
/// the stdout field.
pub proof fn lemma_combined_output_no_stderr(c: Command, outcome: SpawnOutcome)
    requires
        c.combine_output,
    ensures
        run_model(c, outcome) matches RunModel::Success { stderr, .. } ==> stderr.len() == 0,
{
}

/// Whether two observed outcomes carry the same information: the same
/// variant with equal statuses and equal byte contents.
pub open spec fn equivalent_outcomes(a: SpawnOutcome, b: SpawnOutcome) -> bool {
    match (a, b) {
        (SpawnOutcome::Failure { error: e1 }, SpawnOutcome::Failure { error: e2 }) => e1@ == e2@,
        (
            SpawnOutcome::Completion { status: s1, stdout: o1, stderr: r1 },
            SpawnOutcome::Completion { status: s2, stdout: o2, stderr: r2 },
        ) => s1 == s2 && o1@ == o2@ && r1@ == r2@,
        _ => false,
    }
}

/// Law: what a run yields depends only on the configuration and on the
/// observed outcome, so concluding the same unmutated configuration
/// twice against equivalent observations yields results with the same
/// status and equal captured bytes.
pub proof fn lemma_rerun_same_outcome(c: Command, first: SpawnOutcome, second: SpawnOutcome)
    requires
        equivalent_outcomes(first, second),
    ensures
        match (run_model(c, first), run_model(c, second)) {
            (
                RunModel::LaunchFailure { command: c1, error: e1 },
                RunModel::LaunchFailure { command: c2, error: e2 },
            ) => c1 == c2 && e1 == e2,
            (
                RunModel::ExitFailure { command: c1, status: s1 },
                RunModel::ExitFailure { command: c2, status: s2 },
            ) => c1 == c2 && s1 == s2,
            (
                RunModel::Success { status: s1, stdout: o1, stderr: r1 },
                RunModel::Success { status: s2, stdout: o2, stderr: r2 },
            ) => s1 == s2 && o1 == o2 && r1 == r2,
            _ => false,
        },
{
}

} // verus!
