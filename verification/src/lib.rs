//! Verified core of a command-availability checker for container images.
//!
//! The library covers the whole pipeline that decides what the program does:
//! resolving the ordered list of command names to probe, generating a probe
//! script for a shell dialect, building the argument list for the container
//! runtime, and classifying the captured output into installed and missing
//! commands with a summary and a terminal outcome.  All I/O (reading the
//! command file, spawning the runtime, printing) lives outside the library.

use vstd::prelude::*;

pub mod classify;
pub mod dialect;
pub mod report;
pub mod resolver;
pub mod runner;
pub mod script;
pub mod text;

verus! {

/// Errors of the verified pipeline.  Reading the command file and spawning
/// the container runtime happen outside the library; their failures are
/// reported where they occur.
#[derive(Debug, PartialEq, Eq, Structural, Clone, Copy)]
pub enum CheckError {
    /// No command names were resolved, so there is nothing to probe.
    NoCommands,
    /// The container run finished with a failure status, so the captured
    /// output cannot be trusted and no summary is produced.
    RunFailed,
}

} // verus!
