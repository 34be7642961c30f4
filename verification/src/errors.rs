use vstd::prelude::*;

verus! {

/// Failure modes of version-string handling.
#[derive(Clone, Copy, Debug, PartialEq, Eq, Structural)]
pub enum VersionError {
    /// The version lies below the minimum the tool supports.
    Unsupported,
    /// A needed dotted segment was missing or was not a small number.
    ParseFailure,
}

/// Failure modes of the line-indexed configuration patcher.
#[derive(Clone, Copy, Debug, PartialEq, Eq, Structural)]
pub enum PatchError {
    /// The requested line index lies past the end of the file.
    OutOfRange,
}

/// Failure modes of the host-environment probe.
#[derive(Clone, Copy, Debug, PartialEq, Eq, Structural)]
pub enum EnvironmentError {
    /// The host platform has no known companion interpreter.
    UnsupportedPlatform,
}

} // verus!
