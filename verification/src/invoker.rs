//! The observed result of one external command.
//!
//! The library never spawns processes itself: the caller runs the
//! program, waits for it, and hands the captured result in as a plain
//! value.  A command that could not be spawned at all is reported the
//! same way as one that exited non-zero.

use vstd::prelude::*;
use crate::errors::Error;

verus! {

/// What running one external program yielded: whether it exited
/// successfully, and its captured output streams, decoded as text.
#[derive(Clone, Debug, PartialEq, Eq)]
pub struct CmdOutcome {
    /// True exactly when the process was spawned and exited with
    /// status zero.
    pub success: bool,
    /// The captured standard output.
    pub stdout: String,
    /// The captured standard error.
    pub stderr: String,
}

impl CmdOutcome {
    /// A successful run that printed `stdout`.
    pub fn ok(stdout: String) -> (r: CmdOutcome)
        ensures
            r.success,
            r.stdout == stdout,
            r.stderr@ == Seq::<char>::empty(),
    {
        CmdOutcome { success: true, stdout, stderr: String::new() }
    }

    /// A failed run that printed `stderr`.
    pub fn failed(stderr: String) -> (r: CmdOutcome)
        ensures
            !r.success,
            r.stdout@ == Seq::<char>::empty(),
            r.stderr == stderr,
    {
        CmdOutcome { success: false, stdout: String::new(), stderr }
    }
}

/// Turns a command's outcome into a result, never swallowing a
/// non-zero exit: any failure becomes a `ServiceCallFailure` carrying
/// the given label and the captured standard-error text.
pub fn check_outcome(outcome: &CmdOutcome, error_label: &str) -> (r: Result<(), Error>)
    ensures
        outcome.success <==> r is Ok,
        !outcome.success ==> (r matches Err(Error::ServiceCallFailure { label, stderr })
            && label@ == error_label@ && stderr == outcome.stderr),
{
    if outcome.success {
        Ok(())
    } else {
        Err(
            Error::ServiceCallFailure {
                label: String::from_str(error_label),
                stderr: outcome.stderr.clone(),
            },
        )
    }
}

} // verus!
