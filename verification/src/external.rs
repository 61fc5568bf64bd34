//! The outcome of launching an external program, and what the shell
//! reports of it: the child's captured standard output verbatim, or a
//! launch-failure message. The child's standard error and exit status are
//! carried in the structure but deliberately never surfaced.

use vstd::prelude::*;
use crate::messages::{run_error_message, run_error_spec};

verus! {

/// What a completed child process produced.
pub struct RunCapture {
    /// The child's captured standard output.
    pub stdout: Vec<u8>,
    /// The child's captured standard error; not surfaced.
    pub stderr: Vec<u8>,
    /// The child's exit code, if it exited normally; not surfaced.
    pub status: Option<i32>,
}

/// The outcome of trying to run an external program.
pub enum RunResult {
    /// The child ran to completion.
    Completed(RunCapture),
    /// The child could not be launched; the system's error text.
    SpawnFailed(String),
}

/// What the shell does after an external run.
pub enum ExternalReport {
    /// Write these bytes to the shell's standard output, verbatim, and
    /// flush.
    Output(Vec<u8>),
    /// Print this message on its own line.
    Failure(String),
}

/// What the shell writes for a completed child: its standard output alone.
pub open spec fn completed_report_spec(c: RunCapture) -> Seq<u8> {
    c.stdout@
}

/// Nothing but the child's standard output reaches the shell's output: two
/// completed runs with the same standard output are reported identically,
/// whatever their standard error or exit status.
pub proof fn lemma_report_ignores_stderr_and_status(a: RunCapture, b: RunCapture)
    requires
        a.stdout@ == b.stdout@,
    ensures
        completed_report_spec(a) == completed_report_spec(b),
{
}

/// Turns the outcome of an external run into what the shell reports.
pub fn report_external(result: RunResult) -> (r: ExternalReport)
    ensures
        result matches RunResult::Completed(c) ==> (r matches ExternalReport::Output(o) && o@
            == completed_report_spec(c)),
        result matches RunResult::SpawnFailed(e) ==> (r matches ExternalReport::Failure(m) && m@
            == run_error_spec(e@)),
{
    match result {
        RunResult::Completed(c) => ExternalReport::Output(c.stdout),
        RunResult::SpawnFailed(e) => ExternalReport::Failure(run_error_message(e.as_str())),
    }
}

} // verus!
