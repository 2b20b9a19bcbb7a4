//! The closed set of failures a capability call can report.
//!
//! Every failing call returns one of these to the guest as a typed result;
//! none of them aborts the host, and a failing call leaves the host state
//! untouched (no partial effects).

use vstd::prelude::*;

verus! {

/// Why a capability call failed.
#[derive(Clone, Copy, Debug, PartialEq, Eq, Structural)]
pub enum HostError {
    /// The operation is not available on the calling module's role.
    /// Deterministic: it depends on the (role, operation) pair alone,
    /// never on argument values.
    Unsupported,
    /// A descriptor or argument failed synchronous validation.
    InvalidArgument,
    /// A resource handle is unknown, stale, or of the wrong kind; or a
    /// local-directed message names a module that is not loaded.
    NotFound,
    /// A world resource the operation needs (such as an active peer
    /// connection, or the session's local player) is absent.
    PreconditionMissing,
    /// A long-running operation's collaborator reported failure. Surfaced
    /// only through the deferred callback path, never synchronously.
    OperationFailed,
}

impl HostError {
    /// A short stable description, for collaborators that log failures.
    pub fn describe(&self) -> (r: &'static str)
        ensures
            r@ == self.describe_spec(),
    {
        match self {
            HostError::Unsupported => "operation not supported on this role",
            HostError::InvalidArgument => "argument failed validation",
            HostError::NotFound => "handle or module not found",
            HostError::PreconditionMissing => "required world resource is absent",
            HostError::OperationFailed => "deferred operation failed",
        }
    }

    /// What `describe` returns for each variant.
    pub open spec fn describe_spec(&self) -> Seq<char> {
        match self {
            HostError::Unsupported => "operation not supported on this role"@,
            HostError::InvalidArgument => "argument failed validation"@,
            HostError::NotFound => "handle or module not found"@,
            HostError::PreconditionMissing => "required world resource is absent"@,
            HostError::OperationFailed => "deferred operation failed"@,
        }
    }
}

} // verus!
