//! Error taxonomy of the client.
//!
//! A caller-supplied text field that cannot be encoded, a wire code a strict
//! decoder cannot interpret, or a privileged call that itself reported
//! failure.

use vstd::prelude::*;

verus! {

/// The caller-supplied text field an operation was encoding when it failed.
#[derive(Debug, Clone, Copy, PartialEq, Eq, Structural)]
pub enum FieldName {
    MachineName,
    DatabaseName,
    ServiceName,
    DisplayName,
    AccountName,
    AccountPassword,
    ExecutablePath,
    LaunchArgument,
}

/// The domain type a strict decoder was interpreting when it met an unknown
/// wire code.
#[derive(Debug, Clone, Copy, PartialEq, Eq, Structural)]
pub enum EnumKind {
    StartType,
    ErrorControl,
    State,
    Control,
}

/// What went wrong in a single operation against the control manager.
#[derive(Debug, Clone, Copy, PartialEq, Eq, Structural)]
pub enum ServiceError {
    /// A caller-supplied string could not be encoded for the platform,
    /// e.g. because of an embedded nul.
    InvalidField(FieldName),
    /// The platform reported a code this client cannot interpret, for a
    /// domain type whose decoding policy is strict.
    InvalidEnumValue(EnumKind, u32),
    /// The privileged call reported failure; carries the last platform
    /// error code.
    PlatformCallFailed(u32),
}

} // verus!
