//! Benchmark execution harness: runs user-specified benchmark commands and
//! attaches performance instrumentation to them through a dynamic-preload
//! injection mechanism.
//!
//! The decision logic lives here, verified: auditing a profile directory for
//! subprocesses that escaped instrumentation, predicting whether a target
//! executable will honor the preload mechanism, locating the preload library,
//! building the reportable benchmark identifier, and sequencing the run.
//! Process creation and filesystem access are left to the embedding program,
//! which feeds their results back in as plain values.

pub mod audit;
pub mod command;
pub mod compat;
pub mod errors;
pub mod exec;
pub mod locator;
