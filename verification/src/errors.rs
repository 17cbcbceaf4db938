//! The failure taxonomy of the build orchestrator.

use vstd::prelude::*;

verus! {

/// Why a build was abandoned.  Every failure is fatal by design: a failed
/// native build is not recoverable without operator intervention, so the
/// caller is expected to stop the overall build immediately.
#[derive(Debug)]
pub enum BuildError {
    /// A required environment input was absent; holds the variable's name.
    MissingEnvironment(String),
    /// The target is MSVC-like but its architecture was not recognized;
    /// holds the offending target triple.
    UnsupportedTarget(String),
    /// The external executable could not be located on the system; holds the
    /// tool's display name, so the operator can see what to install.
    ToolNotFound(String),
    /// The external tool ran but exited unsuccessfully; holds the exit code
    /// when the process reported one.
    BuildStepFailed(Option<i32>),
    /// The process could not be launched for another reason (permissions,
    /// I/O); holds a description of the underlying cause.
    LaunchError(String),
}

} // verus!
