//! The shared probe contract and the error taxonomy of the detection core.

use vstd::prelude::*;

verus! {

/// Status code an OS primitive reports on plain success.
pub const STATUS_SUCCESS: i32 = 0;

/// Status code of the dedicated "port not set" reply of the typed
/// process-information query: for the debug-object and debug-port classes it
/// is the protocol's way of confirming that nothing is attached.
pub const STATUS_PORT_NOT_SET: i32 = -1073740973;

/// Status code that the system-wide handle-table query reports when the
/// caller's buffer is too small; the required size comes back beside it.
pub const STATUS_INFO_LENGTH_MISMATCH: i32 = -1073741820;

/// The OS primitive whose failure an [`DebugCheckError::ApiFailure`] names.
#[derive(Debug, Clone, Copy, PartialEq, Eq, Structural)]
pub enum ApiCall {
    /// Reading a thread's saved execution context.
    ThreadContextRead,
    /// Writing a thread's saved execution context back.
    ThreadContextWrite,
    /// The "stop delivering debug events for this thread" directive.
    HideThreadFromDebugger,
    /// Creating the planted idle thread.
    ThreadCreate,
    /// The system-wide handle-table snapshot query.
    SystemInformationQuery,
    /// The typed per-process information query.
    ProcessInformationQuery,
}

/// What can go wrong inside the detection core.
///
/// Failures are surfaced as typed errors, never silently coerced into a
/// clean answer, since a detector that goes blind exactly on induced failure
/// paths would be worthless.
#[derive(Debug, Clone, Copy, PartialEq, Eq, Structural)]
pub enum DebugCheckError {
    /// An OS primitive returned a non-success status; carries the failing
    /// call's identity and the status code it reported.
    ApiFailure { call: ApiCall, status: i32 },
    /// A structural invariant was violated, such as a null heap pointer or a
    /// control-block snapshot too short for the configured field offsets.
    InvalidPointer,
    /// The correlator's own thread object could not be located in the
    /// handle table: an internal inconsistency, not a verdict.
    ObjectNotFound,
    /// A query returned control but established neither a clean nor an
    /// observed state.
    Undetermined,
    /// The correlator was asked for a verdict before it was armed, or after
    /// it was torn down.
    NotArmed,
}

/// The capability contract every probe answers: "is this process being
/// observed by a debugger right now?"  `true` means observed, `false` means
/// clean.
pub trait BeingDebug {
    /// The verdict this value stands for, as a mathematical predicate.
    spec fn spec_being_debug(&self) -> bool;

    /// Evaluate the verdict.
    fn is_being_debug(&self) -> (r: bool)
        ensures
            r == self.spec_being_debug(),
    ;
}

} // verus!
