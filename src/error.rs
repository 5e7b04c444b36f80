//! Errors of project scaffolding.

use vstd::prelude::*;

verus! {

/// Why scaffolding a project stopped.
#[derive(Debug, Clone, Copy, PartialEq, Eq, Structural)]
pub enum NewError {
    /// The target path is already present on disk.
    TargetExists,
    /// The target path has no final component to name the project by.
    InvalidPath,
    /// The project name holds no alphanumeric character to build a type name from.
    InvalidName,
    /// The project creation tool could not be started or exited with failure.
    ExternalToolFailure,
    /// Opening, reading or writing a generated file failed.
    IoFailure,
    /// The generated manifest has fewer than two lines to replace.
    ManifestTooShort,
    /// An event arrived that the current step does not wait for.
    UnexpectedEvent,
}

} // verus!
