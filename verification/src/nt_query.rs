//! Verdicts of the typed per-process information query.
//!
//! The OS exposes one query primitive taking an information-class selector;
//! three classes matter here: the debug port, the debug object handle and
//! the debug flags, each a fixed-size scalar.  The embedding binary issues
//! the query and hands the raw status and scalar in; this module turns the
//! pair into a tri-state outcome and into the failure-tolerant composite
//! verdict the capability contract asks for.

use vstd::prelude::*;

use crate::util::{BeingDebug, DebugCheckError, STATUS_PORT_NOT_SET, STATUS_SUCCESS};

verus! {

/// The scalar that the debug-object query yields when the handle slot
/// holds the well-known invalid-handle sentinel.  A "successful" query that
/// reports this value has found nothing.
pub const INVALID_HANDLE_SENTINEL: u64 = 0xffff_ffff_ffff_ffff;

/// Information-class selector of the debug-port query.
pub const PROCESS_DEBUG_PORT_CLASS: i32 = 7;

/// Information-class selector of the debug-object-handle query.
pub const PROCESS_DEBUG_OBJECT_HANDLE_CLASS: i32 = 30;

/// Information-class selector of the debug-flags query.
pub const PROCESS_DEBUG_FLAGS_CLASS: i32 = 31;

/// Which debug trace of a process the typed query is asked about.
#[derive(Debug, Clone, Copy, PartialEq, Eq, Structural)]
pub enum QueryType {
    /// The kernel port a debugger would receive events through.
    DebugPort,
    /// The kernel debug object a debugger would hold on the process.
    DebugObject,
    /// The per-process debug flags word.
    DebugFlags,
}

impl QueryType {
    /// The information-class selector the OS primitive expects for this
    /// query.
    pub fn information_class(&self) -> (r: i32)
        ensures
            *self == QueryType::DebugPort ==> r == PROCESS_DEBUG_PORT_CLASS,
            *self == QueryType::DebugObject ==> r == PROCESS_DEBUG_OBJECT_HANDLE_CLASS,
            *self == QueryType::DebugFlags ==> r == PROCESS_DEBUG_FLAGS_CLASS,
    {
        match self {
            QueryType::DebugPort => PROCESS_DEBUG_PORT_CLASS,
            QueryType::DebugObject => PROCESS_DEBUG_OBJECT_HANDLE_CLASS,
            QueryType::DebugFlags => PROCESS_DEBUG_FLAGS_CLASS,
        }
    }
}

/// What one issue of the typed query reported: the status code and the
/// scalar written into the output buffer.
#[derive(Debug, Clone, Copy, PartialEq, Eq, Structural)]
pub struct QueryOutcome {
    /// The status the primitive returned.
    pub status: i32,
    /// The fixed-size scalar it wrote; zero when it wrote nothing.
    pub value: u64,
}

/// Tri-state reading of one typed query: confirmed clean, debugger
/// indicated, or no answer at all.
#[derive(Debug, Clone, Copy, PartialEq, Eq, Structural)]
pub enum ProcessDebugQueryResult {
    /// The query answered and found no debug trace.
    NotPresent,
    /// The query answered and found a debug trace.
    Present,
    /// The query failed with the carried status; nothing was established.
    QueryFailed(i32),
}

/// The query-based probes, over the three outcomes the embedding binary
/// gathered for one process.
#[derive(Debug, Clone, Copy, PartialEq, Eq, Structural)]
pub struct NtQueryDebug {
    /// Outcome of the debug-port query.
    pub port: QueryOutcome,
    /// Outcome of the debug-object-handle query.
    pub object: QueryOutcome,
    /// Outcome of the debug-flags query.
    pub flags: QueryOutcome,
}

impl NtQueryDebug {
    /// The tri-state reading of one outcome.
    ///
    /// A status other than plain success is a failure, with one exception:
    /// the dedicated "port not set" status is that protocol's way of
    /// confirming the clean case, for the object query in particular.  On
    /// success a zero scalar is clean; so, for the object query alone, is
    /// the invalid-handle sentinel: a present verdict needs a handle that
    /// is both present and valid.
    pub open spec fn spec_query_result(outcome: QueryOutcome, query_type: QueryType)
        -> ProcessDebugQueryResult {
        if outcome.status != STATUS_SUCCESS && outcome.status != STATUS_PORT_NOT_SET {
            ProcessDebugQueryResult::QueryFailed(outcome.status)
        } else if outcome.status == STATUS_PORT_NOT_SET {
            ProcessDebugQueryResult::NotPresent
        } else if outcome.value == 0 {
            ProcessDebugQueryResult::NotPresent
        } else if query_type == QueryType::DebugObject && outcome.value
            == INVALID_HANDLE_SENTINEL {
            ProcessDebugQueryResult::NotPresent
        } else {
            ProcessDebugQueryResult::Present
        }
    }

    /// Turn the raw status and scalar of one typed query into its
    /// tri-state reading.
    pub fn nt_query_core(outcome: &QueryOutcome, query_type: QueryType) -> (r:
        ProcessDebugQueryResult)
        ensures
            r == Self::spec_query_result(*outcome, query_type),
    {
        if outcome.status != STATUS_SUCCESS && outcome.status != STATUS_PORT_NOT_SET {
            return ProcessDebugQueryResult::QueryFailed(outcome.status);
        }
        if outcome.status == STATUS_PORT_NOT_SET {
            return ProcessDebugQueryResult::NotPresent;
        }
        if outcome.value == 0 {
            return ProcessDebugQueryResult::NotPresent;
        }
        if query_type == QueryType::DebugObject && outcome.value == INVALID_HANDLE_SENTINEL {
            return ProcessDebugQueryResult::NotPresent;
        }
        ProcessDebugQueryResult::Present
    }

    /// The failure-tolerant boolean reading of one outcome: observed only
    /// on a present verdict; a clean answer and a failed query both count
    /// as not observed.
    pub open spec fn spec_query_observed(outcome: QueryOutcome, query_type: QueryType) -> bool {
        Self::spec_query_result(outcome, query_type) == ProcessDebugQueryResult::Present
    }

    /// The failure-tolerant debug-port probe.
    pub fn check_debug_port(outcome: &QueryOutcome) -> (r: bool)
        ensures
            r == Self::spec_query_observed(*outcome, QueryType::DebugPort),
    {
        Self::nt_query_core(outcome, QueryType::DebugPort) == ProcessDebugQueryResult::Present
    }

    /// The failure-tolerant debug-object probe.
    pub fn check_debug_object(outcome: &QueryOutcome) -> (r: bool)
        ensures
            r == Self::spec_query_observed(*outcome, QueryType::DebugObject),
    {
        Self::nt_query_core(outcome, QueryType::DebugObject) == ProcessDebugQueryResult::Present
    }

    /// The failure-tolerant debug-flags probe.
    pub fn check_debug_flags(outcome: &QueryOutcome) -> (r: bool)
        ensures
            r == Self::spec_query_observed(*outcome, QueryType::DebugFlags),
    {
        Self::nt_query_core(outcome, QueryType::DebugFlags) == ProcessDebugQueryResult::Present
    }

    /// Map a failed outcome to the error taxonomy: a query that returned
    /// control without establishing either state is undetermined, never
    /// clean.  The composite verdict below is the one deliberate exception
    /// to that rule.
    pub fn query_result_or_error(outcome: &QueryOutcome, query_type: QueryType) -> (r: Result<
        bool,
        DebugCheckError,
    >)
        ensures
            Self::spec_query_result(*outcome, query_type) == ProcessDebugQueryResult::Present
                ==> r == Ok::<bool, DebugCheckError>(true),
            Self::spec_query_result(*outcome, query_type) == ProcessDebugQueryResult::NotPresent
                ==> r == Ok::<bool, DebugCheckError>(false),
            (Self::spec_query_result(*outcome, query_type) matches
                ProcessDebugQueryResult::QueryFailed(_)) ==> r == Err::<bool, DebugCheckError>(
                DebugCheckError::Undetermined,
            ),
    {
        match Self::nt_query_core(outcome, query_type) {
            ProcessDebugQueryResult::Present => Ok(true),
            ProcessDebugQueryResult::NotPresent => Ok(false),
            ProcessDebugQueryResult::QueryFailed(_) => Err(DebugCheckError::Undetermined),
        }
    }
}

impl BeingDebug for NtQueryDebug {
    /// The composite query reading: the conjunction of the three
    /// failure-tolerant probes.  It reports observed only when every
    /// sub-signal independently says so; any one query's inability to
    /// confirm is treated as exculpatory.  This leniency is a deliberate
    /// design choice of this one composite and must not spread to any
    /// other component.
    open spec fn spec_being_debug(&self) -> bool {
        &&& Self::spec_query_observed(self.flags, QueryType::DebugFlags)
        &&& Self::spec_query_observed(self.object, QueryType::DebugObject)
        &&& Self::spec_query_observed(self.port, QueryType::DebugPort)
    }

    fn is_being_debug(&self) -> (r: bool) {
        Self::check_debug_flags(&self.flags) && Self::check_debug_object(&self.object)
            && Self::check_debug_port(&self.port)
    }
}

} // verus!
