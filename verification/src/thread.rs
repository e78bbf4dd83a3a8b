//! The honeypot-thread correlator and the thread-directed mitigation.
//!
//! The correlator plants one idle thread whose only job is to exist and
//! hold a kernel handle open.  A debugger that attaches enumerates and
//! opens every thread of its target, so a handle to that thread held by
//! any other process is the canonical trace of an attached debugger.  The
//! embedding binary spawns the thread and fetches the system-wide handle
//! table; everything after those two OS calls — parsing the raw table,
//! locating the planted thread's kernel object, and scanning for a foreign
//! duplicate — is decided here.

use vstd::prelude::*;

use crate::bytes::{
    read_le_u16_at, read_le_u32_at, read_le_u64_at, read_u8_at, spec_le_u16_at, spec_le_u32_at,
    spec_le_u64_at, spec_u8_at,
};
use crate::util::{ApiCall, DebugCheckError, STATUS_INFO_LENGTH_MISMATCH, STATUS_SUCCESS};

verus! {

/// Bytes before the first entry of a raw handle-table snapshot: the
/// four-byte entry count, padded to the alignment of the entries.
pub const HANDLE_TABLE_HEADER_LEN: usize = 8;

/// Bytes of one fixed-layout entry in a raw handle-table snapshot.
pub const HANDLE_TABLE_ENTRY_LEN: usize = 24;

/// First guess for the snapshot buffer, before the query reports what it
/// really needs.
pub const INITIAL_SNAPSHOT_BUFFER_LEN: u32 = 0x10000;

/// Defensive bound on grow-and-retry rounds of the snapshot query.  The
/// protocol itself has no cap; the bound only keeps a pathological
/// responder from looping the caller forever, and is generous enough never
/// to cut a compliant exchange short.
pub const MAX_SNAPSHOT_RETRIES: u32 = 32;

/// One entry of the system-wide handle table: which process holds which
/// handle value onto which kernel object.
#[derive(Debug, Clone, Copy, PartialEq, Eq, Structural)]
pub struct SystemHandleTableEntryInfo {
    /// Identifier of the process that owns the handle.
    pub unique_process_id: u16,
    pub creator_back_trace_index: u16,
    pub object_type_index: u8,
    pub handle_attributes: u8,
    /// The handle's value inside its owning process.
    pub handle_value: u16,
    /// Address of the kernel object the handle refers to.
    pub object: u64,
    pub granted_access: u32,
}

/// A parsed handle-table snapshot: the entry count the OS reported and the
/// entries themselves.
#[derive(Debug, Clone, PartialEq, Eq)]
pub struct SystemHandleInformation {
    pub number_of_handles: u32,
    pub handles: Vec<SystemHandleTableEntryInfo>,
}

impl SystemHandleInformation {
    /// A snapshot is well-formed when the reported count and the parsed
    /// entries agree.
    pub open spec fn wf(self) -> bool {
        self.number_of_handles == self.handles@.len()
    }

    /// The entry that the raw snapshot holds at index `i`.
    pub open spec fn spec_entry_at(s: Seq<u8>, i: int) -> SystemHandleTableEntryInfo {
        let base = HANDLE_TABLE_HEADER_LEN + i * HANDLE_TABLE_ENTRY_LEN;
        SystemHandleTableEntryInfo {
            unique_process_id: spec_le_u16_at(s, base),
            creator_back_trace_index: spec_le_u16_at(s, base + 2),
            object_type_index: spec_u8_at(s, base + 4),
            handle_attributes: spec_u8_at(s, base + 5),
            handle_value: spec_le_u16_at(s, base + 6),
            object: spec_le_u64_at(s, base + 8),
            granted_access: spec_le_u32_at(s, base + 16),
        }
    }

    /// The entry count in the raw snapshot's header.
    pub open spec fn spec_entry_count(s: Seq<u8>) -> u32 {
        spec_le_u32_at(s, 0)
    }

    /// Whether the raw snapshot is long enough for its own header and for
    /// every entry its header announces.
    pub open spec fn spec_covers(s: Seq<u8>) -> bool {
        &&& s.len() >= 4
        &&& HANDLE_TABLE_HEADER_LEN + Self::spec_entry_count(s) * HANDLE_TABLE_ENTRY_LEN
            <= s.len()
    }

    /// Parse a raw snapshot as the query returns it: a count-prefixed array
    /// of fixed-layout entries.  A snapshot shorter than its own count
    /// announces is rejected; the table is OS-produced, so such a buffer
    /// means the query protocol was violated.
    pub fn parse(bytes: &Vec<u8>) -> (r: Result<SystemHandleInformation, DebugCheckError>)
        ensures
            Self::spec_covers(bytes@) ==> match r {
                Ok(info) => {
                    &&& info.wf()
                    &&& info.number_of_handles == Self::spec_entry_count(bytes@)
                    &&& forall|i: int|
                        0 <= i < info.handles@.len() ==> info.handles@[i] == Self::spec_entry_at(
                            bytes@,
                            i,
                        )
                },
                Err(_) => false,
            },
            !Self::spec_covers(bytes@) ==> r == Err::<SystemHandleInformation, DebugCheckError>(
                DebugCheckError::InvalidPointer,
            ),
    {
        if bytes.len() < 4 {
            return Err(DebugCheckError::InvalidPointer);
        }
        let count: u32 = read_le_u32_at(bytes, 0);
        let needed: u64 = HANDLE_TABLE_HEADER_LEN as u64 + count as u64
            * HANDLE_TABLE_ENTRY_LEN as u64;
        if needed > bytes.len() as u64 {
            return Err(DebugCheckError::InvalidPointer);
        }
        let count_us: usize = count as usize;
        let mut handles: Vec<SystemHandleTableEntryInfo> = Vec::new();
        let mut i: usize = 0;
        while i < count_us
            invariant
                count_us == Self::spec_entry_count(bytes@),
                HANDLE_TABLE_HEADER_LEN + count_us * HANDLE_TABLE_ENTRY_LEN <= bytes.len(),
                i <= count_us,
                handles@.len() == i,
                forall|j: int|
                    0 <= j < i as int ==> handles@[j] == Self::spec_entry_at(bytes@, j),
            decreases count_us - i,
        {
            let base: usize = HANDLE_TABLE_HEADER_LEN + i * HANDLE_TABLE_ENTRY_LEN;
            let entry = SystemHandleTableEntryInfo {
                unique_process_id: read_le_u16_at(bytes, base),
                creator_back_trace_index: read_le_u16_at(bytes, base + 2),
                object_type_index: read_u8_at(bytes, base + 4),
                handle_attributes: read_u8_at(bytes, base + 5),
                handle_value: read_le_u16_at(bytes, base + 6),
                object: read_le_u64_at(bytes, base + 8),
                granted_access: read_le_u32_at(bytes, base + 16),
            };
            handles.push(entry);
            i = i + 1;
        }
        Ok(SystemHandleInformation { number_of_handles: count, handles })
    }
}

/// What the next move in the snapshot query's buffer-growth protocol is.
#[derive(Debug, Clone, Copy, PartialEq, Eq, Structural)]
pub enum SnapshotQueryStep {
    /// The buffer was too small; issue the query again with a buffer of
    /// the carried size.
    Retry(u32),
    /// The query succeeded; the buffer holds the snapshot.
    Done,
    /// The query failed for a reason no larger buffer can mend, or the
    /// defensive retry bound ran out; carries the status.
    Fail(i32),
}

/// The decision rule of the grow-and-retry protocol: a length mismatch asks
/// for one more round at exactly the size the OS reported, success ends the
/// exchange, anything else — including an exhausted retry bound — is final
/// failure.
pub open spec fn spec_growth_step(status: i32, required_len: u32, retries_left: u32)
    -> SnapshotQueryStep {
    if status == STATUS_SUCCESS {
        SnapshotQueryStep::Done
    } else if status == STATUS_INFO_LENGTH_MISMATCH && retries_left > 0 {
        SnapshotQueryStep::Retry(required_len)
    } else {
        SnapshotQueryStep::Fail(status)
    }
}

/// Decide the next move of the handle-table snapshot query from the status
/// the OS returned, the required length it reported beside it, and the
/// retries the defensive bound still allows.  The bound exists only to
/// survive a pathological responder; it never changes the success path.
pub fn query_system_information_step(status: i32, required_len: u32, retries_left: u32) -> (r:
    SnapshotQueryStep)
    ensures
        r == spec_growth_step(status, required_len, retries_left),
{
    if status == STATUS_SUCCESS {
        SnapshotQueryStep::Done
    } else if status == STATUS_INFO_LENGTH_MISMATCH && retries_left > 0 {
        SnapshotQueryStep::Retry(required_len)
    } else {
        SnapshotQueryStep::Fail(status)
    }
}

/// Convergence of the buffer-growth protocol: an undersized attempt leads
/// to exactly one more round, sized as the OS asked, and a compliant
/// success on that round ends the exchange — a snapshot larger than any
/// fixed guess still goes through.  With the retry bound exhausted the
/// protocol never asks for another round, so the loop cannot run forever
/// even against a responder that reports a mismatch each time.
pub proof fn lemma_growth_converges(required_len: u32, retries_left: u32)
    requires
        retries_left > 0,
    ensures
        spec_growth_step(STATUS_INFO_LENGTH_MISMATCH, required_len, retries_left)
            == SnapshotQueryStep::Retry(required_len),
        spec_growth_step(STATUS_SUCCESS, required_len, (retries_left - 1) as u32)
            == SnapshotQueryStep::Done,
        forall|status: i32, len: u32| !(spec_growth_step(status, len, 0) is Retry),
{
}

/// The thread-directed mitigation: marker for the "stop delivering debug
/// events" directive.  Spawning the worker that issues it from a foreign
/// context is an OS-level action of the embedding binary; the verified
/// core only interprets the directive's status, in
/// [`disable_thread_debug`].
pub struct DisableDebug {}

/// Interpret the status of the "hide this thread from the debugger"
/// directive.  The directive is idempotent on the OS side — hiding an
/// already hidden thread succeeds — so a success status always maps to
/// plain success here; any other status surfaces as a typed failure naming
/// the directive.
pub fn disable_thread_debug(status: i32) -> (r: Result<(), DebugCheckError>)
    ensures
        status == STATUS_SUCCESS ==> r == Ok::<(), DebugCheckError>(()),
        status != STATUS_SUCCESS ==> r == Err::<(), DebugCheckError>(
            (DebugCheckError::ApiFailure { call: ApiCall::HideThreadFromDebugger, status }),
        ),
{
    if status == STATUS_SUCCESS {
        Ok(())
    } else {
        Err(DebugCheckError::ApiFailure { call: ApiCall::HideThreadFromDebugger, status })
    }
}

/// The honeypot correlator: the planted thread's handle and identifiers,
/// and the kernel object address once it has been located.
///
/// Unarmed until the embedding binary records the planted thread; armed
/// once handle and owning process are known; resolved once the thread's
/// own kernel object address has been found in a handle table.  The
/// address is invariant for the thread's lifetime, so it is memoized on
/// first resolution.
#[derive(Debug, Clone, Copy, PartialEq, Eq, Structural)]
pub struct HoneyThread {
    /// The exclusively owned handle to the planted thread; `None` while
    /// unarmed or after teardown.
    pub thread_handle: Option<u64>,
    /// Kernel object address of the planted thread; zero until resolved.
    pub thread_object: u64,
    /// Identifier of the owning process; zero while unarmed.
    pub process_uid: u32,
    /// Identifier the OS assigned to the planted thread.
    pub thread_uid: u32,
}

impl Default for HoneyThread {
    /// A fresh, unarmed correlator.
    fn default() -> (r: Self)
        ensures
            r.thread_handle is None,
            r.thread_object == 0,
            r.process_uid == 0,
            r.thread_uid == 0,
            !r.spec_armed(),
    {
        HoneyThread { thread_handle: None, thread_object: 0, process_uid: 0, thread_uid: 0 }
    }
}

/// The object address that a left-to-right scan of `entries` leaves
/// behind, starting from `cur`: every entry owned by `pid` under handle
/// value `hval` overwrites the running value with its object address, so
/// the last such entry wins.
pub open spec fn spec_resolve_scan(
    entries: Seq<SystemHandleTableEntryInfo>,
    pid: u32,
    hval: u64,
    cur: u64,
) -> u64
    decreases entries.len(),
{
    if entries.len() == 0 {
        cur
    } else {
        let prev = spec_resolve_scan(entries.drop_last(), pid, hval, cur);
        let e = entries.last();
        if e.unique_process_id as u32 == pid && e.handle_value as u64 == hval {
            e.object
        } else {
            prev
        }
    }
}

/// Whether some entry of `entries` shows a process other than `pid`
/// holding a handle onto the object at `object`.
pub open spec fn spec_foreign_duplicate(
    entries: Seq<SystemHandleTableEntryInfo>,
    pid: u32,
    object: u64,
) -> bool {
    exists|i: int|
        0 <= i < entries.len() && entries[i].unique_process_id as u32 != pid && entries[i].object
            == object
}

/// Scan for the object address recorded under `(pid, hval)`, last match
/// winning, as [`spec_resolve_scan`] describes; zero when no entry
/// matches.
fn resolve_object(
    handles: &Vec<SystemHandleTableEntryInfo>,
    pid: u32,
    hval: u64,
) -> (r: u64)
    ensures
        r == spec_resolve_scan(handles@, pid, hval, 0),
{
    let mut cur: u64 = 0;
    let mut i: usize = 0;
    while i < handles.len()
        invariant
            i <= handles@.len(),
            cur == spec_resolve_scan(handles@.take(i as int), pid, hval, 0),
        decreases handles@.len() - i,
    {
        let e = &handles[i];
        if e.unique_process_id as u32 == pid && e.handle_value as u64 == hval {
            cur = e.object;
        }
        proof {
            assert(handles@.take(i + 1 as int).drop_last() =~= handles@.take(i as int));
            assert(handles@.take(i + 1 as int).last() == handles@[i as int]);
        }
        i = i + 1;
    }
    proof {
        assert(handles@.take(handles@.len() as int) =~= handles@);
    }
    cur
}

/// Scan for an entry of a process other than `pid` whose object address is
/// `object`.
fn find_foreign_duplicate(
    handles: &Vec<SystemHandleTableEntryInfo>,
    pid: u32,
    object: u64,
) -> (r: bool)
    ensures
        r == spec_foreign_duplicate(handles@, pid, object),
{
    let mut i: usize = 0;
    while i < handles.len()
        invariant
            i <= handles@.len(),
            forall|j: int|
                0 <= j < i as int ==> !(handles@[j].unique_process_id as u32 != pid
                    && handles@[j].object == object),
        decreases handles@.len() - i,
    {
        let e = &handles[i];
        if e.unique_process_id as u32 != pid && e.object == object {
            return true;
        }
        i = i + 1;
    }
    false
}

impl HoneyThread {
    /// Armed: the planted thread's handle and the owning process are
    /// recorded, so a verdict may be asked for.
    pub open spec fn spec_armed(self) -> bool {
        self.thread_handle is Some && self.process_uid != 0
    }

    /// The object address a verdict run works with: the memoized one, or
    /// the one a resolution scan of `entries` yields.
    pub open spec fn spec_resolved_object(self, entries: Seq<SystemHandleTableEntryInfo>) -> u64 {
        if self.thread_object != 0 {
            self.thread_object
        } else {
            spec_resolve_scan(entries, self.process_uid, self.thread_handle->Some_0, 0)
        }
    }

    /// The verdict one run over `entries` returns: an explicit failure
    /// while unarmed, an internal inconsistency when the planted thread's
    /// own object cannot be found, otherwise whether some other process
    /// holds a handle onto the planted thread.
    pub open spec fn spec_check_verdict(self, entries: Seq<SystemHandleTableEntryInfo>) -> Result<
        bool,
        DebugCheckError,
    > {
        if !self.spec_armed() {
            Err(DebugCheckError::NotArmed)
        } else if self.spec_resolved_object(entries) == 0 {
            Err(DebugCheckError::ObjectNotFound)
        } else {
            Ok(spec_foreign_duplicate(entries, self.process_uid, self.spec_resolved_object(entries)))
        }
    }

    /// The correlator state one run over `entries` leaves behind: the
    /// resolved object address is memoized; nothing else moves.
    pub open spec fn spec_after_check(self, entries: Seq<SystemHandleTableEntryInfo>)
        -> HoneyThread {
        if !self.spec_armed() {
            self
        } else {
            HoneyThread { thread_object: self.spec_resolved_object(entries), ..self }
        }
    }

    /// Record the planted thread the embedding binary created: its handle
    /// and the identifier the OS assigned to it.
    pub fn create_thread(&mut self, thread_handle: u64, thread_uid: u32)
        ensures
            final(self).thread_handle == Some(thread_handle),
            final(self).thread_uid == thread_uid,
            final(self).thread_object == old(self).thread_object,
            final(self).process_uid == old(self).process_uid,
    {
        self.thread_handle = Some(thread_handle);
        self.thread_uid = thread_uid;
    }

    /// Arm the correlator for the current process: record the planted
    /// thread and the identifier of the process that owns it.
    pub fn set_honey_thread_current_process(
        &mut self,
        thread_handle: u64,
        thread_uid: u32,
        process_uid: u32,
    )
        ensures
            final(self).thread_handle == Some(thread_handle),
            final(self).thread_uid == thread_uid,
            final(self).process_uid == process_uid,
            final(self).thread_object == old(self).thread_object,
            process_uid != 0 ==> final(self).spec_armed(),
    {
        self.create_thread(thread_handle, thread_uid);
        self.process_uid = process_uid;
    }

    /// One verdict run over a parsed handle-table snapshot.
    ///
    /// Locates the planted thread's own kernel object — once; the address
    /// is memoized — then scans for a handle to that object held by any
    /// other process.  Existence of such a handle is the verdict `true`:
    /// some external process opened this crate's private thread, the
    /// canonical behaviour of an attaching debugger.
    pub fn check(&mut self, info: &SystemHandleInformation) -> (r: Result<bool, DebugCheckError>)
        requires
            info.wf(),
        ensures
            *final(self) == old(self).spec_after_check(info.handles@),
            r == old(self).spec_check_verdict(info.handles@),
    {
        if self.thread_handle.is_none() || self.process_uid == 0 {
            return Err(DebugCheckError::NotArmed);
        }
        let hval: u64 = self.thread_handle.unwrap();
        if self.thread_object == 0 {
            self.thread_object = resolve_object(&info.handles, self.process_uid, hval);
        }
        if self.thread_object == 0 {
            return Err(DebugCheckError::ObjectNotFound);
        }
        Ok(find_foreign_duplicate(&info.handles, self.process_uid, self.thread_object))
    }

    /// The verdict of [`Self::check`] without the memoization: what a run
    /// over `info` would answer, leaving the correlator untouched.
    pub fn correlate(&self, info: &SystemHandleInformation) -> (r: Result<bool, DebugCheckError>)
        requires
            info.wf(),
        ensures
            r == self.spec_check_verdict(info.handles@),
    {
        if self.thread_handle.is_none() || self.process_uid == 0 {
            return Err(DebugCheckError::NotArmed);
        }
        let hval: u64 = self.thread_handle.unwrap();
        let resolved: u64 = if self.thread_object != 0 {
            self.thread_object
        } else {
            resolve_object(&info.handles, self.process_uid, hval)
        };
        if resolved == 0 {
            return Err(DebugCheckError::ObjectNotFound);
        }
        Ok(find_foreign_duplicate(&info.handles, self.process_uid, resolved))
    }

    /// Tear the correlator down: disarm it and hand the thread handle —
    /// owned exclusively by this correlator — back to the embedding binary,
    /// which releases it exactly once.  Every later verdict run fails
    /// explicitly until the correlator is re-armed; a torn-down correlator
    /// never works on the stale handle silently.
    pub fn teardown(&mut self) -> (r: Option<u64>)
        ensures
            r == old(self).thread_handle,
            final(self).thread_handle is None,
            final(self).thread_object == 0,
            final(self).process_uid == 0,
            final(self).thread_uid == 0,
            !final(self).spec_armed(),
    {
        let handle = self.thread_handle;
        self.thread_handle = None;
        self.thread_object = 0;
        self.process_uid = 0;
        self.thread_uid = 0;
        handle
    }
}

/// Idempotence of the verdict run: the state a run leaves behind answers
/// every later run over the same snapshot identically, and a second run
/// moves the state no further — the one-time memoization of the object
/// address is the only mutation there is.
pub proof fn lemma_check_idempotent(h: HoneyThread, entries: Seq<SystemHandleTableEntryInfo>)
    ensures
        h.spec_after_check(entries).spec_check_verdict(entries) == h.spec_check_verdict(entries),
        h.spec_after_check(entries).spec_after_check(entries) == h.spec_after_check(entries),
{
}

/// A torn-down correlator fails explicitly: with no recorded handle every
/// verdict run over every snapshot answers the arming error, never a
/// verdict from stale state.
pub proof fn lemma_torn_down_fails_explicitly(
    h: HoneyThread,
    entries: Seq<SystemHandleTableEntryInfo>,
)
    requires
        h.thread_handle is None,
    ensures
        !h.spec_armed(),
        h.spec_check_verdict(entries) == Err::<bool, DebugCheckError>(DebugCheckError::NotArmed),
{
}

} // verus!
