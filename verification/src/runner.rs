//! Classification of the outcome of one external command.
//!
//! The orchestrator never spawns a process itself: the caller runs a command
//! from an invocation plan, observes what happened as an [`ExecOutcome`], and
//! [`classify_outcome`] turns that observation into the build's verdict.

use crate::errors::BuildError;
use vstd::prelude::*;
use vstd::string::StringExecFns;

verus! {

/// What the caller observed when it tried to execute an external command.
pub enum ExecOutcome {
    /// The process was launched and ran to completion with this status.
    Exited {
        /// Whether the exit status was successful.
        success: bool,
        /// The exit code, when the process reported one.
        code: Option<i32>,
    },
    /// The executable could not be located on the system.
    NotFound,
    /// The launch failed for another reason; holds a description of the cause.
    LaunchFailed(String),
}

/// The build's verdict on one external command, following the failure
/// taxonomy exactly: a successful exit passes; an unlocatable executable is
/// `ToolNotFound` (the tool may need installation); an unsuccessful exit is
/// `BuildStepFailed` with the raw status; any other launch failure is
/// `LaunchError` with its cause.  The three failure classes are distinct
/// variants, so a missing tool is never mistaken for a failing one.
pub fn classify_outcome(outcome: ExecOutcome, program: &str) -> (r: Result<(), BuildError>)
    ensures
        match outcome {
            ExecOutcome::Exited { success, code } => if success {
                r == Result::<(), BuildError>::Ok(())
            } else {
                r == Result::<(), BuildError>::Err(BuildError::BuildStepFailed(code))
            },
            ExecOutcome::NotFound => r matches Err(BuildError::ToolNotFound(p)) && p@
                == program@,
            ExecOutcome::LaunchFailed(e) => r matches Err(BuildError::LaunchError(d)) && d@
                == e@,
        },
{
    match outcome {
        ExecOutcome::Exited { success, code } => {
            if success {
                Ok(())
            } else {
                Err(BuildError::BuildStepFailed(code))
            }
        },
        ExecOutcome::NotFound => Err(BuildError::ToolNotFound(program.to_owned())),
        ExecOutcome::LaunchFailed(e) => Err(BuildError::LaunchError(e)),
    }
}

/// Formats the message with which a build script gives up: the cause `s`,
/// framed so that it stands out of the surrounding tool output.
pub fn fail(s: &str) -> (r: String)
    ensures
        r@ == "\n"@ + s@ + "\n\nbuild script failed, must exit now"@,
{
    let mut m = String::from_str("\n");
    m.append(s);
    m.append("\n\nbuild script failed, must exit now");
    m
}

} // verus!
