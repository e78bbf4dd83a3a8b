//! Interpretation of the process environment block and the process heap
//! control block.
//!
//! Both structures are OS-owned memory that the embedding binary copies
//! into byte snapshots.  This module holds the per-architecture table of
//! field offsets, the bounds-checked readers that overlay a snapshot, and
//! the probes that turn the interpreted fields into a verdict.

use vstd::prelude::*;

use crate::bytes::{
    read_le_u32_at, read_le_u64_at, read_u8_at, spec_le_u32_at, spec_le_u64_at, spec_u8_at,
};
use crate::util::{BeingDebug, DebugCheckError};

verus! {

/// Value of the four-byte loader flag field that the loader writes when the
/// process was created under a debugger.  An OS-version-specific signature,
/// kept as a configuration constant.
pub const NT_GLOBAL_FLAG_DEBUG_SIGNATURE: u32 = 0x70;

/// Value of the heap `flags` field of an uninstrumented process heap; an
/// OS-version-specific constant, like the loader-flag signature.
pub const HEAP_DEFAULT_FLAGS: u32 = 2;

/// Byte width of a pointer in the thirty-two-bit control-block layout.
pub const POINTER_WIDTH_32: usize = 4;

/// Byte width of a pointer in the sixty-four-bit control-block layout.
pub const POINTER_WIDTH_64: usize = 8;

/// Offsets of the interpreted fields inside a process environment block
/// snapshot.  The layout of the block depends on the address width of the
/// target, so the right table must be picked per architecture; reading at
/// the wrong offset yields garbage, which is why every read through this
/// table is bounds-checked against the snapshot.
pub struct PebFieldLayout {
    /// Offset of the one-byte "being debugged" flag.
    pub being_debugged: usize,
    /// Offset of the pointer to the process heap control block.
    pub process_heap: usize,
    /// Offset of the four-byte loader flag field.
    pub nt_global_flag: usize,
    /// Byte width of a pointer in this layout; four or eight.
    pub pointer_width: usize,
}

impl PebFieldLayout {
    /// A layout table makes sense only if a snapshot covering all of its
    /// fields can exist and the pointer width is one of the two the OS
    /// defines.
    pub open spec fn wf(self) -> bool {
        &&& self.pointer_width == POINTER_WIDTH_32 || self.pointer_width == POINTER_WIDTH_64
        &&& self.being_debugged + 1 <= usize::MAX
        &&& self.process_heap + self.pointer_width <= usize::MAX
        &&& self.nt_global_flag + 4 <= usize::MAX
    }

    /// The field table of the sixty-four-bit process environment block.
    pub fn for_64bit() -> (r: Self)
        ensures
            r.wf(),
            r.being_debugged == 0x2,
            r.process_heap == 0x30,
            r.nt_global_flag == 0xbc,
            r.pointer_width == POINTER_WIDTH_64,
    {
        PebFieldLayout {
            being_debugged: 0x2,
            process_heap: 0x30,
            nt_global_flag: 0xbc,
            pointer_width: POINTER_WIDTH_64,
        }
    }

    /// The field table of the thirty-two-bit process environment block.
    pub fn for_32bit() -> (r: Self)
        ensures
            r.wf(),
            r.being_debugged == 0x2,
            r.process_heap == 0x18,
            r.nt_global_flag == 0x68,
            r.pointer_width == POINTER_WIDTH_32,
    {
        PebFieldLayout {
            being_debugged: 0x2,
            process_heap: 0x18,
            nt_global_flag: 0x68,
            pointer_width: POINTER_WIDTH_32,
        }
    }

    /// Whether a snapshot of `len` bytes covers every field of this table.
    pub open spec fn spec_covers(self, len: int) -> bool {
        &&& self.being_debugged + 1 <= len
        &&& self.process_heap + self.pointer_width <= len
        &&& self.nt_global_flag + 4 <= len
    }

    fn covers(&self, len: usize) -> (r: bool)
        requires
            self.wf(),
        ensures
            r == self.spec_covers(len as int),
    {
        self.being_debugged + 1 <= len && self.process_heap + self.pointer_width <= len
            && self.nt_global_flag + 4 <= len
    }
}

/// Offsets of the interpreted fields inside a process heap snapshot.
pub struct HeapFieldLayout {
    /// Offset of the four-byte `flags` field.
    pub flags: usize,
    /// Offset of the four-byte `force_flags` field.
    pub force_flags: usize,
}

impl HeapFieldLayout {
    pub open spec fn wf(self) -> bool {
        &&& self.flags + 4 <= usize::MAX
        &&& self.force_flags + 4 <= usize::MAX
    }

    /// The field table of the sixty-four-bit process heap block.
    pub fn for_64bit() -> (r: Self)
        ensures
            r.wf(),
            r.flags == 0x70,
            r.force_flags == 0x74,
    {
        HeapFieldLayout { flags: 0x70, force_flags: 0x74 }
    }

    /// The field table of the thirty-two-bit process heap block.
    pub fn for_32bit() -> (r: Self)
        ensures
            r.wf(),
            r.flags == 0x40,
            r.force_flags == 0x44,
    {
        HeapFieldLayout { flags: 0x40, force_flags: 0x44 }
    }

    /// Whether a snapshot of `len` bytes covers both fields of this table.
    pub open spec fn spec_covers(self, len: int) -> bool {
        &&& self.flags + 4 <= len
        &&& self.force_flags + 4 <= len
    }

    fn covers(&self, len: usize) -> (r: bool)
        requires
            self.wf(),
        ensures
            r == self.spec_covers(len as int),
    {
        self.flags + 4 <= len && self.force_flags + 4 <= len
    }
}

/// The interpreted subset of a process environment block: the creation-time
/// debug flag, the address of the process heap block, and the loader flag
/// field.
#[derive(Debug, Clone, Copy, PartialEq, Eq, Structural)]
pub struct WinPeb {
    /// One-byte flag; nonzero when a debugger was attached when the process
    /// was created.
    pub being_debugged: u8,
    /// Address of the process heap control block; zero stands for a null
    /// pointer, which the probes treat as a broken field table.
    pub process_heap: u64,
    /// Four-byte loader flag field; equal to
    /// [`NT_GLOBAL_FLAG_DEBUG_SIGNATURE`] when the loader saw a debugger.
    pub nt_global_flag: u32,
}

impl Default for WinPeb {
    /// The zeroed view, as a fresh, uninterpreted value.
    fn default() -> (r: Self)
        ensures
            r.being_debugged == 0,
            r.process_heap == 0,
            r.nt_global_flag == 0,
    {
        WinPeb { being_debugged: 0, process_heap: 0, nt_global_flag: 0 }
    }
}

impl WinPeb {
    /// The pointer field of a snapshot under a layout, read at the layout's
    /// pointer width.
    pub open spec fn spec_heap_pointer(s: Seq<u8>, layout: PebFieldLayout) -> u64 {
        if layout.pointer_width == POINTER_WIDTH_32 {
            spec_le_u32_at(s, layout.process_heap as int) as u64
        } else {
            spec_le_u64_at(s, layout.process_heap as int)
        }
    }

    /// The view that overlaying `s` with `layout` yields.
    pub open spec fn spec_from_snapshot(s: Seq<u8>, layout: PebFieldLayout) -> WinPeb {
        WinPeb {
            being_debugged: spec_u8_at(s, layout.being_debugged as int),
            process_heap: Self::spec_heap_pointer(s, layout),
            nt_global_flag: spec_le_u32_at(s, layout.nt_global_flag as int),
        }
    }

    /// Overlay a raw snapshot of the process environment block with a field
    /// table.  A snapshot too short for the table is rejected: it means the
    /// table does not belong to the running architecture, a configuration
    /// fault that must surface, not be masked.
    pub fn from_snapshot(bytes: &Vec<u8>, layout: &PebFieldLayout) -> (r: Result<
        WinPeb,
        DebugCheckError,
    >)
        requires
            layout.wf(),
        ensures
            layout.spec_covers(bytes@.len() as int) ==> r == Ok::<WinPeb, DebugCheckError>(
                Self::spec_from_snapshot(bytes@, *layout),
            ),
            !layout.spec_covers(bytes@.len() as int) ==> r == Err::<WinPeb, DebugCheckError>(
                DebugCheckError::InvalidPointer,
            ),
    {
        if !layout.covers(bytes.len()) {
            return Err(DebugCheckError::InvalidPointer);
        }
        let process_heap: u64 = if layout.pointer_width == POINTER_WIDTH_32 {
            read_le_u32_at(bytes, layout.process_heap) as u64
        } else {
            read_le_u64_at(bytes, layout.process_heap)
        };
        Ok(
            WinPeb {
                being_debugged: read_u8_at(bytes, layout.being_debugged),
                process_heap,
                nt_global_flag: read_le_u32_at(bytes, layout.nt_global_flag),
            },
        )
    }
}

impl BeingDebug for WinPeb {
    /// Observed when the creation-time flag is set or the loader flag field
    /// carries the debug signature.
    open spec fn spec_being_debug(&self) -> bool {
        !(self.being_debugged == 0 && self.nt_global_flag != NT_GLOBAL_FLAG_DEBUG_SIGNATURE)
    }

    fn is_being_debug(&self) -> (r: bool) {
        if self.being_debugged == 0 && self.nt_global_flag != NT_GLOBAL_FLAG_DEBUG_SIGNATURE {
            false
        } else {
            true
        }
    }
}

/// The interpreted subset of the process heap control block.
///
/// Both heap fields are latched when the heap is created: a debugger that
/// attaches after process start leaves them untouched, so a clean pair here
/// never rules out a later attach.  That blind spot is a documented
/// property of the signal, not a defect of the probe.
#[derive(Debug, Clone, Copy, PartialEq, Eq, Structural)]
pub struct WinProcessHeap {
    /// Heap flags; [`HEAP_DEFAULT_FLAGS`] on an uninstrumented heap.
    pub flags: u32,
    /// Forced heap flags; zero on an uninstrumented heap.
    pub force_flags: u32,
}

impl Default for WinProcessHeap {
    /// The zeroed view, as a fresh, uninterpreted value.
    fn default() -> (r: Self)
        ensures
            r.flags == 0,
            r.force_flags == 0,
    {
        WinProcessHeap { flags: 0, force_flags: 0 }
    }
}

impl WinProcessHeap {
    /// The view that overlaying `s` with `layout` yields.
    pub open spec fn spec_from_snapshot(s: Seq<u8>, layout: HeapFieldLayout) -> WinProcessHeap {
        WinProcessHeap {
            flags: spec_le_u32_at(s, layout.flags as int),
            force_flags: spec_le_u32_at(s, layout.force_flags as int),
        }
    }

    /// Overlay a raw snapshot of the process heap block with a field table,
    /// rejecting a snapshot that does not cover the table.
    pub fn from_snapshot(bytes: &Vec<u8>, layout: &HeapFieldLayout) -> (r: Result<
        WinProcessHeap,
        DebugCheckError,
    >)
        requires
            layout.wf(),
        ensures
            layout.spec_covers(bytes@.len() as int) ==> r == Ok::<WinProcessHeap, DebugCheckError>(
                Self::spec_from_snapshot(bytes@, *layout),
            ),
            !layout.spec_covers(bytes@.len() as int) ==> r == Err::<WinProcessHeap, DebugCheckError>(
                DebugCheckError::InvalidPointer,
            ),
    {
        if !layout.covers(bytes.len()) {
            return Err(DebugCheckError::InvalidPointer);
        }
        Ok(
            WinProcessHeap {
                flags: read_le_u32_at(bytes, layout.flags),
                force_flags: read_le_u32_at(bytes, layout.force_flags),
            },
        )
    }
}

impl BeingDebug for WinProcessHeap {
    /// Observed when the heap fields deviate from the clean pair: default
    /// flags and no forced flags.
    open spec fn spec_being_debug(&self) -> bool {
        !(self.flags == HEAP_DEFAULT_FLAGS && self.force_flags == 0)
    }

    fn is_being_debug(&self) -> (r: bool) {
        if self.flags == HEAP_DEFAULT_FLAGS && self.force_flags == 0 {
            false
        } else {
            true
        }
    }
}

impl WinPeb {
    /// The creation-time flag probe over an interpreted environment block.
    ///
    /// Reads the one-byte flag alone: observed exactly when it is nonzero.
    /// The flag is written when a debugger is present as the process is
    /// created; the probe cannot see an attach that happened later.  The
    /// block's combined reading over both fields is the [`BeingDebug`]
    /// impl, not this probe.
    pub fn peb_being_debugged_asm(peb: &WinPeb) -> (r: bool)
        ensures
            r == (peb.being_debugged != 0),
    {
        peb.being_debugged != 0
    }

    /// The loader-flag probe over an interpreted environment block.
    ///
    /// Reads the four-byte loader field alone: observed exactly when it
    /// carries [`NT_GLOBAL_FLAG_DEBUG_SIGNATURE`]; like the flag byte, the
    /// signal is latched at process creation.
    pub fn peb_nt_global_flag_asm(peb: &WinPeb) -> (r: bool)
        ensures
            r == (peb.nt_global_flag == NT_GLOBAL_FLAG_DEBUG_SIGNATURE),
    {
        peb.nt_global_flag == NT_GLOBAL_FLAG_DEBUG_SIGNATURE
    }

    /// The heap-flags probe along the environment-block path.
    ///
    /// A null heap pointer in the block means this crate's own field table
    /// is wrong for the running architecture; that fault surfaces as
    /// [`DebugCheckError::InvalidPointer`] and is never folded into a
    /// verdict.  Otherwise the verdict is the heap view's.
    pub fn peb_process_heap_asm(peb: &WinPeb, heap: &WinProcessHeap) -> (r: Result<
        bool,
        DebugCheckError,
    >)
        ensures
            peb.process_heap == 0 ==> r == Err::<bool, DebugCheckError>(
                DebugCheckError::InvalidPointer,
            ),
            peb.process_heap != 0 ==> r == Ok::<bool, DebugCheckError>(heap.spec_being_debug()),
    {
        if peb.process_heap == 0 {
            return Err(DebugCheckError::InvalidPointer);
        }
        Ok(heap.is_being_debug())
    }

    /// The heap-flags probe along the OS accessor path.
    ///
    /// The embedding binary obtains the current heap block through the OS
    /// accessor instead of the environment block; both paths read the same
    /// latched signal, so on one heap view their verdicts agree by the two
    /// contracts.
    pub fn peb_process_heap(heap: &WinProcessHeap) -> (r: Result<bool, DebugCheckError>)
        ensures
            r == Ok::<bool, DebugCheckError>(heap.spec_being_debug()),
    {
        Ok(heap.is_being_debug())
    }
}

} // verus!
