//! Build-time orchestration for a native library built with CMake.
//!
//! A [`Config`] accumulates compiler flags, preprocessor defines, upstream
//! dependency names and an optional build target.  Consuming it with
//! [`Config::build`] derives the full platform-sensitive invocation plan for
//! the external generator and builder: the two command lines, the dependency
//! search path, and the install directory.  The caller executes the plan and
//! classifies the outcome of each spawned process with
//! [`runner::classify_outcome`].
//!
//! All environment inputs are passed in explicitly as an
//! [`EnvSnapshot`], so the whole derivation is a pure function of the
//! configuration and the snapshot: nothing is cached between builds, and a
//! failed derivation never reaches a subprocess.

pub mod config;
pub mod environment;
pub mod errors;
pub mod laws;
pub mod runner;
pub mod strutil;

pub use config::BuildPlan;
pub use config::CommandSpec;
pub use config::Config;
pub use environment::EnvSnapshot;
pub use errors::BuildError;
pub use runner::ExecOutcome;

use vstd::prelude::*;

verus! {

/// Derives the invocation plan for the project rooted at `path` with an
/// otherwise empty configuration, as [`Config::build`] does.
pub fn build(path: &str, env: &EnvSnapshot) -> (r: Result<BuildPlan, BuildError>)
    ensures
        config::build_result_matches(r, config::empty_config_view(path@), env@),
{
    Config::new(path).build(env)
}

} // verus!
