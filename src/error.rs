//! Failures that a provisioning step can report.
use vstd::prelude::*;

verus! {

/// Why a step failed. The `String` payloads carry the diagnostic text that the
/// external tool wrote, verbatim.
#[derive(Debug, PartialEq, Eq)]
pub enum DiskError {
    /// The tool could not be run or exited with a failure status.
    ToolExecution(String),
    /// The tool's output did not have the expected shape.
    Parse(String),
    /// The disk or entry that was looked for does not exist.
    NotFound,
    /// The pool could not be created.
    PoolCreation(String),
    /// The volume could not be carved out of the pool.
    Carve(String),
    /// Any other external command failed.
    Command(String),
}

} // verus!
