//! The detection registry: a closed set of detector capabilities, uniform
//! evaluation over one gathered state snapshot, and randomized selection
//! among registered detectors.
//!
//! Callers that want to vary which check runs register any subset of the
//! capability set and draw from it, instead of hard-coding a fixed
//! sequence of probes.

use vstd::prelude::*;

use rand::Rng;

use crate::breakpoint::DebugRegisters;
use crate::nt_query::{NtQueryDebug, QueryOutcome, QueryType};
use crate::peb::{WinPeb, WinProcessHeap, HEAP_DEFAULT_FLAGS, NT_GLOBAL_FLAG_DEBUG_SIGNATURE};
use crate::thread::{spec_foreign_duplicate, HoneyThread, SystemHandleInformation};
use crate::util::{BeingDebug, DebugCheckError, STATUS_SUCCESS};

verus! {

/// Everything the probes read, gathered by the embedding binary into one
/// snapshot of plain values: the interpreted control blocks, the saved
/// breakpoint registers, the three typed query outcomes, the live answer
/// of the OS "debugger present" accessor, and the correlator with its
/// handle-table snapshot.
pub struct DebugSnapshot {
    /// The OS "is a debugger present" accessor's answer; live, not latched.
    pub debugger_present: bool,
    /// The interpreted process environment block.
    pub peb: WinPeb,
    /// The interpreted process heap block.
    pub heap: WinProcessHeap,
    /// The saved breakpoint registers of the watched thread.
    pub regs: DebugRegisters,
    /// Outcome of the debug-port query.
    pub port: QueryOutcome,
    /// Outcome of the debug-object-handle query.
    pub object: QueryOutcome,
    /// Outcome of the debug-flags query.
    pub flags: QueryOutcome,
    /// The armed honeypot correlator.
    pub honey: HoneyThread,
    /// The parsed system-wide handle table the correlator works over.
    pub handle_table: SystemHandleInformation,
}

impl DebugSnapshot {
    /// A snapshot is well-formed when its handle table is.
    pub open spec fn wf(self) -> bool {
        self.handle_table.wf()
    }

    /// The verified clean environment: no debugger announced, creation-time
    /// flags at their clean values, no planted watchpoint, every typed
    /// query answering "nothing attached", and a handle table in which the
    /// planted thread's object is found and no other process holds a
    /// handle onto it.
    pub open spec fn spec_is_clean(self) -> bool {
        &&& !self.debugger_present
        &&& self.peb.being_debugged == 0
        &&& self.peb.nt_global_flag != NT_GLOBAL_FLAG_DEBUG_SIGNATURE
        &&& self.heap.flags == HEAP_DEFAULT_FLAGS
        &&& self.heap.force_flags == 0
        &&& self.regs.dr0 == 0 && self.regs.dr1 == 0 && self.regs.dr2 == 0 && self.regs.dr3 == 0
        &&& self.port.status == STATUS_SUCCESS && self.port.value == 0
        &&& self.object.status == STATUS_SUCCESS && self.object.value == 0
        &&& self.flags.status == STATUS_SUCCESS && self.flags.value == 0
        &&& self.honey.spec_armed()
        &&& self.honey.spec_resolved_object(self.handle_table.handles@) != 0
        &&& !spec_foreign_duplicate(
            self.handle_table.handles@,
            self.honey.process_uid,
            self.honey.spec_resolved_object(self.handle_table.handles@),
        )
    }

    /// An environment whose debugger attached as the process was created:
    /// the live accessor answers, and every creation-time-latched signal —
    /// the flag byte, the loader signature, the heap instrumentation — was
    /// written.
    pub open spec fn spec_attached_at_creation(self) -> bool {
        &&& self.debugger_present
        &&& self.peb.being_debugged != 0
        &&& self.peb.nt_global_flag == NT_GLOBAL_FLAG_DEBUG_SIGNATURE
        &&& !(self.heap.flags == HEAP_DEFAULT_FLAGS && self.heap.force_flags == 0)
    }

    /// An environment whose debugger attached only after process start:
    /// the live accessor answers, but every creation-time-latched signal
    /// still holds its clean value.
    pub open spec fn spec_attached_after_start(self) -> bool {
        &&& self.debugger_present
        &&& self.peb.being_debugged == 0
        &&& self.peb.nt_global_flag != NT_GLOBAL_FLAG_DEBUG_SIGNATURE
        &&& self.heap.flags == HEAP_DEFAULT_FLAGS
        &&& self.heap.force_flags == 0
    }
}

/// The closed set of detector capabilities.  Every variant answers the one
/// operation of the capability contract — evaluate the current
/// debug-observed state to a boolean verdict — with no side effect; the
/// honeypot variant is the exception in that it presupposes the planted
/// thread.
#[derive(Debug, Clone, Copy, PartialEq, Eq, Structural)]
pub enum DetectorKind {
    /// The live OS "debugger present" accessor.
    PresenceFlag,
    /// The creation-time flag byte of the environment block.
    PebBeingDebugged,
    /// The loader flag field of the environment block.
    PebNtGlobalFlag,
    /// The latched heap instrumentation fields.
    HeapFlags,
    /// The saved hardware breakpoint registers.
    HardwareBreakpoint,
    /// The typed debug-port query.
    DebugPort,
    /// The typed debug-object-handle query.
    DebugObject,
    /// The typed debug-flags query.
    DebugFlags,
    /// The cross-process handle correlation around the planted thread.
    Honeypot,
}

impl DetectorKind {
    /// The verdict this capability gives on a snapshot.
    pub open spec fn spec_evaluate(self, snap: DebugSnapshot) -> Result<bool, DebugCheckError> {
        match self {
            DetectorKind::PresenceFlag => Ok(snap.debugger_present),
            DetectorKind::PebBeingDebugged => Ok(snap.peb.being_debugged != 0),
            DetectorKind::PebNtGlobalFlag => Ok(
                snap.peb.nt_global_flag == NT_GLOBAL_FLAG_DEBUG_SIGNATURE,
            ),
            DetectorKind::HeapFlags => Ok(snap.heap.spec_being_debug()),
            DetectorKind::HardwareBreakpoint => Ok(snap.regs.spec_being_debug()),
            DetectorKind::DebugPort => Ok(
                NtQueryDebug::spec_query_observed(snap.port, QueryType::DebugPort),
            ),
            DetectorKind::DebugObject => Ok(
                NtQueryDebug::spec_query_observed(snap.object, QueryType::DebugObject),
            ),
            DetectorKind::DebugFlags => Ok(
                NtQueryDebug::spec_query_observed(snap.flags, QueryType::DebugFlags),
            ),
            DetectorKind::Honeypot => snap.honey.spec_check_verdict(snap.handle_table.handles@),
        }
    }

    /// Evaluate this capability on a snapshot.
    pub fn evaluate(&self, snap: &DebugSnapshot) -> (r: Result<bool, DebugCheckError>)
        requires
            snap.wf(),
        ensures
            r == self.spec_evaluate(*snap),
    {
        match self {
            DetectorKind::PresenceFlag => Ok(snap.debugger_present),
            DetectorKind::PebBeingDebugged => Ok(WinPeb::peb_being_debugged_asm(&snap.peb)),
            DetectorKind::PebNtGlobalFlag => Ok(WinPeb::peb_nt_global_flag_asm(&snap.peb)),
            DetectorKind::HeapFlags => Ok(snap.heap.is_being_debug()),
            DetectorKind::HardwareBreakpoint => Ok(snap.regs.is_being_debug()),
            DetectorKind::DebugPort => Ok(NtQueryDebug::check_debug_port(&snap.port)),
            DetectorKind::DebugObject => Ok(NtQueryDebug::check_debug_object(&snap.object)),
            DetectorKind::DebugFlags => Ok(NtQueryDebug::check_debug_flags(&snap.flags)),
            DetectorKind::Honeypot => snap.honey.correlate(&snap.handle_table),
        }
    }
}

/// The registry: the detectors a caller registered, in registration order.
pub struct Exception {
    pub handlers: Vec<DetectorKind>,
}

impl Default for Exception {
    /// An empty registry.
    fn default() -> (r: Self)
        ensures
            r.handlers@.len() == 0,
    {
        Exception { handlers: Vec::new() }
    }
}

impl Exception {
    /// Add one detector to the registry.
    pub fn register_handler(&mut self, kind: DetectorKind)
        ensures
            final(self).handlers@ == old(self).handlers@.push(kind),
    {
        self.handlers.push(kind);
    }

    /// Deterministic selection: the registered detector at `index`, or
    /// nothing when the index is out of range.  Seeded callers and tests
    /// use this directly; the randomized selection below draws the index.
    pub fn select_handler(&self, index: usize) -> (r: Option<&DetectorKind>)
        ensures
            r is Some <==> index < self.handlers@.len(),
            r matches Some(k) ==> *k == self.handlers@[index as int],
    {
        if index < self.handlers.len() {
            Some(&self.handlers[index])
        } else {
            None
        }
    }

    /// Randomized selection among the registered detectors: nothing on an
    /// empty registry, otherwise one of its detectors.
    pub fn rand_handlers(&self) -> (r: Option<&DetectorKind>)
        ensures
            r is Some <==> self.handlers@.len() > 0,
            r matches Some(k) ==> self.handlers@.contains(*k),
    {
        if self.handlers.len() == 0 {
            return None;
        }
        let index = random_index(self.handlers.len());
        let r = self.select_handler(index);
        proof {
            assert(self.handlers@.contains(self.handlers@[index as int]));
        }
        r
    }
}

/// Relies on rand::Rng::gen_range over the half-open range of indices
/// below `n`: the sampled value always lies in the range, and the range is
/// non-empty, so the call does not panic.
#[verifier::external_body]
fn random_index(n: usize) -> (r: usize)
    requires
        0 < n,
    ensures
        r < n,
{
    rand::thread_rng().gen_range(0..n)
}

/// In a verified clean environment every capability answers `false`: no
/// flag probe reports a debugger, and the honeypot correlator, armed and
/// able to find its own thread, finds no foreign handle onto it.
pub proof fn lemma_clean_environment(snap: DebugSnapshot)
    requires
        snap.spec_is_clean(),
    ensures
        forall|kind: DetectorKind| #[trigger]
            kind.spec_evaluate(snap) == Ok::<bool, DebugCheckError>(false),
{
    assert forall|kind: DetectorKind| #[trigger]
        kind.spec_evaluate(snap) == Ok::<bool, DebugCheckError>(false) by {
        match kind {
            DetectorKind::PresenceFlag => {},
            DetectorKind::PebBeingDebugged => {},
            DetectorKind::PebNtGlobalFlag => {},
            DetectorKind::HeapFlags => {},
            DetectorKind::HardwareBreakpoint => {},
            DetectorKind::DebugPort => {},
            DetectorKind::DebugObject => {},
            DetectorKind::DebugFlags => {},
            DetectorKind::Honeypot => {},
        }
    }
}

/// Under a debugger that was already attached when the process was
/// created, every attach-time-sensitive probe reports it: the live
/// accessor, both environment-block probes and the heap probe.
pub proof fn lemma_creation_time_attach_detected(snap: DebugSnapshot)
    requires
        snap.spec_attached_at_creation(),
    ensures
        DetectorKind::PresenceFlag.spec_evaluate(snap) == Ok::<bool, DebugCheckError>(true),
        DetectorKind::PebBeingDebugged.spec_evaluate(snap) == Ok::<bool, DebugCheckError>(true),
        DetectorKind::PebNtGlobalFlag.spec_evaluate(snap) == Ok::<bool, DebugCheckError>(true),
        DetectorKind::HeapFlags.spec_evaluate(snap) == Ok::<bool, DebugCheckError>(true),
{
}

/// The required asymmetry of a debugger that attached only after process
/// start: the live accessor reports it, while every creation-time-latched
/// probe keeps answering `false`.  That is correct behaviour of those
/// probes, not a defect — their signals are written once, at creation.
pub proof fn lemma_post_start_attach_asymmetry(snap: DebugSnapshot)
    requires
        snap.spec_attached_after_start(),
    ensures
        DetectorKind::PresenceFlag.spec_evaluate(snap) == Ok::<bool, DebugCheckError>(true),
        DetectorKind::PebBeingDebugged.spec_evaluate(snap) == Ok::<bool, DebugCheckError>(false),
        DetectorKind::PebNtGlobalFlag.spec_evaluate(snap) == Ok::<bool, DebugCheckError>(false),
        DetectorKind::HeapFlags.spec_evaluate(snap) == Ok::<bool, DebugCheckError>(false),
{
}

} // verus!
