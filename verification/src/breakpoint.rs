//! The hardware-breakpoint probe and its mitigation.
//!
//! A thread's saved execution context carries four breakpoint address
//! registers.  Under no debugger all four are zero; any nonzero register is
//! a watchpoint some debugger planted.  The embedding binary transfers the
//! context in and out through the privileged context operations; this
//! module decides the verdict and produces the cleared register file that
//! the mitigation writes back.

use vstd::prelude::*;

use crate::util::BeingDebug;

verus! {

/// The four hardware breakpoint address registers of a thread's saved
/// execution context.
#[derive(Debug, Clone, Copy, PartialEq, Eq, Structural)]
pub struct DebugRegisters {
    pub dr0: u64,
    pub dr1: u64,
    pub dr2: u64,
    pub dr3: u64,
}

impl Default for DebugRegisters {
    /// The clean register file: no watchpoint set.
    fn default() -> (r: Self)
        ensures
            r.dr0 == 0 && r.dr1 == 0 && r.dr2 == 0 && r.dr3 == 0,
            !r.spec_being_debug(),
    {
        DebugRegisters { dr0: 0, dr1: 0, dr2: 0, dr3: 0 }
    }
}

impl BeingDebug for DebugRegisters {
    /// Observed when any of the four registers holds an address.
    open spec fn spec_being_debug(&self) -> bool {
        self.dr0 != 0 || self.dr1 != 0 || self.dr2 != 0 || self.dr3 != 0
    }

    fn is_being_debug(&self) -> (r: bool) {
        if self.dr0 != 0 || self.dr1 != 0 || self.dr2 != 0 || self.dr3 != 0 {
            true
        } else {
            false
        }
    }
}

/// The hardware-breakpoint probe and the register-clearing mitigation.
pub struct HardwareBreakPoint {}

impl HardwareBreakPoint {
    /// Whether the register file carries any planted watchpoint.
    pub fn is_hardware_breakpoint_set(regs: &DebugRegisters) -> (r: bool)
        ensures
            r == regs.spec_being_debug(),
    {
        regs.is_being_debug()
    }

    /// Zero all four breakpoint registers in place.
    ///
    /// The embedding binary reads the thread's context, passes the register
    /// file through here, and writes the context back, so the caller sees
    /// one atomic read-modify-write.  After the clearing, the probe is
    /// guaranteed to report clean.
    pub fn clean_hardware_breakpoint(regs: &mut DebugRegisters)
        ensures
            final(regs).dr0 == 0,
            final(regs).dr1 == 0,
            final(regs).dr2 == 0,
            final(regs).dr3 == 0,
            !final(regs).spec_being_debug(),
    {
        regs.dr0 = 0;
        regs.dr1 = 0;
        regs.dr2 = 0;
        regs.dr3 = 0;
    }
}

/// The detect-clear-detect round trip of the breakpoint probe: whenever at
/// least one register is nonzero the probe reports observed, and on the
/// register file the mitigation leaves behind it reports clean.
pub proof fn lemma_breakpoint_round_trip(before: DebugRegisters, after: DebugRegisters)
    requires
        before.dr0 != 0 || before.dr1 != 0 || before.dr2 != 0 || before.dr3 != 0,
        after.dr0 == 0 && after.dr1 == 0 && after.dr2 == 0 && after.dr3 == 0,
    ensures
        before.spec_being_debug(),
        !after.spec_being_debug(),
{
}

} // verus!
