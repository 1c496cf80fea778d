//! Classifies the host operating system's package-management flavor and
//! plans the sequence of external upgrade commands for it.
//!
//! The crate is organised in three layers, composed top-down:
//!
//! * [`distribution`] — reads identifying facts (gathered by the caller)
//!   and classifies the host into exactly one of a closed set of
//!   distribution variants;
//! * [`exec`] — describes one external invocation as a plain value, with
//!   privilege-elevation wrapping, a simulated run mode, and per-call
//!   tolerance lists for exit codes that count as success;
//! * [`upgrade`] and [`steps`] — given a resolved variant and a policy,
//!   build the distro-specific procedure: an ordered sequence of
//!   execution requests with conditional branches for alternate tools.
//!
//! Nothing in this crate touches the filesystem or spawns a process: the
//! caller performs the probes and executions and feeds the results back
//! in as plain values, so every decision made here is verified.

use vstd::prelude::*;

pub mod config;
pub mod distribution;
pub mod exec;
pub mod osrelease;
pub mod powershell;
pub mod steps;
pub mod text;
pub mod upgrade;

verus! {

/// Why a step could not run, or why the whole run must stop.
///
/// Classification failures ([`TopgradeError::EmptyOsRelease`],
/// [`TopgradeError::InvalidOsRelease`], [`TopgradeError::UnknownDistribution`])
/// abort the run; a missing capability ([`TopgradeError::SudoRequired`],
/// [`TopgradeError::ToolMissing`]) fails one step; [`TopgradeError::SkipStep`]
/// is a deliberate non-execution outcome distinct from failure; and
/// [`TopgradeError::ExitCode`] / [`TopgradeError::InvalidOutput`] report an
/// external process that failed or produced unusable captured output.
#[derive(Clone, Copy, Debug, PartialEq, Eq, Structural)]
pub enum TopgradeError {
    /// The identification file is absent or its primary section is empty.
    EmptyOsRelease,
    /// The identification file exists but cannot be parsed.
    InvalidOsRelease,
    /// No identifier in the identification record matches a known variant.
    UnknownDistribution,
    /// Elevation was needed but no elevation mechanism is configured.
    SudoRequired,
    /// A required external tool is not installed.
    ToolMissing,
    /// The step was deliberately not run (declined, or disabled by policy).
    SkipStep,
    /// The shell's execution policy is too restrictive to run updates.
    ExecutionPolicy,
    /// The external process exited with a code outside the accepted set.
    ExitCode(i32),
    /// Captured output was undecodable or lacked the expected content.
    InvalidOutput,
}

} // verus!
