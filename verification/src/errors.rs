//! The failure taxonomy of a benchmark run.
//!
//! Every failure is fatal to the invocation: nothing is retried and no later
//! command is attempted.  The variants stay structured here; rendering
//! user-facing guidance text out of them is the embedding program's concern.

use crate::audit::SubprocessEvidence;
use crate::compat::IncompatibleReason;
use vstd::prelude::*;

verus! {

/// Why the preload library could not be located.
#[derive(Debug, Clone, Copy, PartialEq, Eq)]
pub enum LocatorError {
    /// The shared library is missing from the expected installation layout.
    NotFound,
    /// The host platform does not support the preload mechanism.
    UnsupportedPlatform,
}

/// Why a benchmark run failed.  Exactly one outcome per invocation.
#[derive(Debug, Clone, PartialEq, Eq)]
pub enum RunError {
    /// The operating system could not create the benchmark process.
    SpawnFailure,
    /// The benchmark process ran but reported failure; `code` is its exit
    /// status, `None` when it was terminated by a signal.
    NonZeroExit { code: Option<i32> },
    /// The static check predicts the target will not honor the preload
    /// injection; the process was never spawned.
    IncompatibleTarget { reason: IncompatibleReason },
    /// The benchmark process spawned a child that escaped instrumentation.
    SubprocessDetected { evidence: SubprocessEvidence },
    /// The preload library could not be located before the run started.
    LocatorFailure { cause: LocatorError },
    /// The instrumentation capability itself reported an error.
    InstrumentationFailure,
}

} // verus!
