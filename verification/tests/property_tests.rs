//! Scenario tests for the probe formulas, the error taxonomy, the
//! buffer-growth protocol, the correlator life cycle and the registry.

use anti_debug::breakpoint::{DebugRegisters, HardwareBreakPoint};
use anti_debug::exception::{DebugSnapshot, DetectorKind, Exception};
use anti_debug::nt_query::{
    NtQueryDebug, ProcessDebugQueryResult, QueryOutcome, QueryType, INVALID_HANDLE_SENTINEL,
};
use anti_debug::peb::{HeapFieldLayout, PebFieldLayout, WinPeb, WinProcessHeap};
use anti_debug::thread::{
    disable_thread_debug, query_system_information_step, HoneyThread, SnapshotQueryStep,
    SystemHandleInformation, SystemHandleTableEntryInfo, INITIAL_SNAPSHOT_BUFFER_LEN,
    MAX_SNAPSHOT_RETRIES,
};
use anti_debug::util::{
    ApiCall, BeingDebug, DebugCheckError, STATUS_INFO_LENGTH_MISMATCH, STATUS_PORT_NOT_SET,
    STATUS_SUCCESS,
};

fn entry(pid: u16, handle: u16, object: u64) -> SystemHandleTableEntryInfo {
    SystemHandleTableEntryInfo {
        unique_process_id: pid,
        creator_back_trace_index: 0,
        object_type_index: 7,
        handle_attributes: 0,
        handle_value: handle,
        object,
        granted_access: 0x1f_ffff,
    }
}

fn table(handles: Vec<SystemHandleTableEntryInfo>) -> SystemHandleInformation {
    SystemHandleInformation { number_of_handles: handles.len() as u32, handles }
}

// ---- environment-block and heap interpretation ----------------------------

#[test]
fn peb_snapshot_overlay_reads_the_configured_offsets() {
    let layout = PebFieldLayout::for_64bit();
    let mut bytes = vec![0u8; 0xc0];
    bytes[0x2] = 1;
    // heap pointer 0x0000_7ffe_1234_5678, little-endian at 0x30
    bytes[0x30] = 0x78;
    bytes[0x31] = 0x56;
    bytes[0x32] = 0x34;
    bytes[0x33] = 0x12;
    bytes[0x34] = 0xfe;
    bytes[0x35] = 0x7f;
    // loader flag 0x70, little-endian at 0xbc
    bytes[0xbc] = 0x70;
    let peb = WinPeb::from_snapshot(&bytes, &layout).unwrap();
    assert_eq!(peb.being_debugged, 1);
    assert_eq!(peb.process_heap, 0x0000_7ffe_1234_5678);
    assert_eq!(peb.nt_global_flag, 0x70);
}

#[test]
fn peb_snapshot_too_short_is_a_configuration_fault() {
    let layout = PebFieldLayout::for_64bit();
    let bytes = vec![0u8; 0x40];
    assert_eq!(
        WinPeb::from_snapshot(&bytes, &layout),
        Err(DebugCheckError::InvalidPointer)
    );
}

#[test]
fn peb_32bit_layout_reads_narrow_pointer() {
    let layout = PebFieldLayout::for_32bit();
    let mut bytes = vec![0u8; 0x6c];
    bytes[0x18] = 0x44;
    bytes[0x19] = 0x33;
    bytes[0x1a] = 0x22;
    bytes[0x1b] = 0x11;
    let peb = WinPeb::from_snapshot(&bytes, &layout).unwrap();
    assert_eq!(peb.process_heap, 0x1122_3344);
    assert_eq!(peb.being_debugged, 0);
}

#[test]
fn heap_snapshot_overlay_reads_both_flag_fields() {
    let layout = HeapFieldLayout::for_64bit();
    let mut bytes = vec![0u8; 0x78];
    bytes[0x70] = 2;
    bytes[0x74] = 0x40;
    let heap = WinProcessHeap::from_snapshot(&bytes, &layout).unwrap();
    assert_eq!(heap.flags, 2);
    assert_eq!(heap.force_flags, 0x40);
    assert_eq!(heap.is_being_debug(), true);
}

#[test]
fn peb_flag_probe_detects_creation_time_attach() {
    let peb = WinPeb { being_debugged: 1, process_heap: 0x1000, nt_global_flag: 0 };
    assert_eq!(WinPeb::peb_being_debugged_asm(&peb), true);
    let peb = WinPeb { being_debugged: 0, process_heap: 0x1000, nt_global_flag: 0x70 };
    assert_eq!(WinPeb::peb_nt_global_flag_asm(&peb), true);
}

#[test]
fn peb_probes_each_read_their_own_field_alone() {
    // The loader signature alone does not trip the flag-byte probe...
    let peb = WinPeb { being_debugged: 0, process_heap: 0x1000, nt_global_flag: 0x70 };
    assert_eq!(WinPeb::peb_being_debugged_asm(&peb), false);
    assert_eq!(WinPeb::peb_nt_global_flag_asm(&peb), true);
    // ...and the flag byte alone does not trip the loader-flag probe.
    let peb = WinPeb { being_debugged: 1, process_heap: 0x1000, nt_global_flag: 0 };
    assert_eq!(WinPeb::peb_being_debugged_asm(&peb), true);
    assert_eq!(WinPeb::peb_nt_global_flag_asm(&peb), false);
    // The block's combined reading reports either signal.
    assert_eq!(peb.is_being_debug(), true);
}

#[test]
fn null_heap_pointer_surfaces_and_is_never_a_verdict() {
    let peb = WinPeb { being_debugged: 0, process_heap: 0, nt_global_flag: 0 };
    let heap = WinProcessHeap { flags: 2, force_flags: 0 };
    assert_eq!(
        WinPeb::peb_process_heap_asm(&peb, &heap),
        Err(DebugCheckError::InvalidPointer)
    );
}

#[test]
fn heap_probe_paths_agree_on_one_heap_view() {
    let peb = WinPeb { being_debugged: 0, process_heap: 0x1000, nt_global_flag: 0 };
    for heap in [
        WinProcessHeap { flags: 2, force_flags: 0 },
        WinProcessHeap { flags: 0x4000_0062, force_flags: 0x4000_0060 },
    ] {
        assert_eq!(
            WinPeb::peb_process_heap_asm(&peb, &heap).unwrap(),
            WinPeb::peb_process_heap(&heap).unwrap()
        );
    }
}

// ---- hardware breakpoint round trip ---------------------------------------

#[test]
fn hardware_breakpoint_round_trip_over_all_register_combinations() {
    for mask in 1u32..16 {
        let mut regs = DebugRegisters {
            dr0: if mask & 1 != 0 { 0x4000_0000 } else { 0 },
            dr1: if mask & 2 != 0 { 0x4000_0008 } else { 0 },
            dr2: if mask & 4 != 0 { 0x4000_0010 } else { 0 },
            dr3: if mask & 8 != 0 { 0x4000_0018 } else { 0 },
        };
        assert_eq!(HardwareBreakPoint::is_hardware_breakpoint_set(&regs), true);
        HardwareBreakPoint::clean_hardware_breakpoint(&mut regs);
        assert_eq!(HardwareBreakPoint::is_hardware_breakpoint_set(&regs), false);
    }
}

// ---- typed query verdicts --------------------------------------------------

#[test]
fn debug_object_not_set_status_is_clean() {
    let outcome = QueryOutcome { status: STATUS_PORT_NOT_SET, value: 0 };
    assert_eq!(
        NtQueryDebug::nt_query_core(&outcome, QueryType::DebugObject),
        ProcessDebugQueryResult::NotPresent
    );
    assert_eq!(NtQueryDebug::check_debug_object(&outcome), false);
}

#[test]
fn debug_object_valid_handle_is_present() {
    let outcome = QueryOutcome { status: STATUS_SUCCESS, value: 0x1a4 };
    assert_eq!(
        NtQueryDebug::nt_query_core(&outcome, QueryType::DebugObject),
        ProcessDebugQueryResult::Present
    );
    assert_eq!(NtQueryDebug::check_debug_object(&outcome), true);
}

#[test]
fn debug_object_invalid_handle_sentinel_is_clean_even_on_success() {
    let outcome = QueryOutcome { status: STATUS_SUCCESS, value: INVALID_HANDLE_SENTINEL };
    assert_eq!(
        NtQueryDebug::nt_query_core(&outcome, QueryType::DebugObject),
        ProcessDebugQueryResult::NotPresent
    );
    // The sentinel exemption belongs to the object query alone.
    assert_eq!(
        NtQueryDebug::nt_query_core(&outcome, QueryType::DebugPort),
        ProcessDebugQueryResult::Present
    );
}

#[test]
fn failed_query_is_undetermined_not_clean() {
    let outcome = QueryOutcome { status: -0x3fff_ffff, value: 0 };
    assert_eq!(
        NtQueryDebug::nt_query_core(&outcome, QueryType::DebugPort),
        ProcessDebugQueryResult::QueryFailed(-0x3fff_ffff)
    );
    assert_eq!(
        NtQueryDebug::query_result_or_error(&outcome, QueryType::DebugPort),
        Err(DebugCheckError::Undetermined)
    );
}

#[test]
fn composite_query_verdict_is_a_failure_tolerant_conjunction() {
    let present = QueryOutcome { status: STATUS_SUCCESS, value: 1 };
    let failed = QueryOutcome { status: -0x3fff_ffff, value: 1 };
    let all = NtQueryDebug { port: present, object: present, flags: present };
    assert_eq!(all.is_being_debug(), true);
    // One sub-signal unable to confirm is exculpatory for the composite.
    let one_failed = NtQueryDebug { port: failed, object: present, flags: present };
    assert_eq!(one_failed.is_being_debug(), false);
    let one_clean = NtQueryDebug {
        port: present,
        object: QueryOutcome { status: STATUS_SUCCESS, value: 0 },
        flags: present,
    };
    assert_eq!(one_clean.is_being_debug(), false);
}

// ---- handle-table parsing ---------------------------------------------------

fn raw_entry(e: &SystemHandleTableEntryInfo, out: &mut Vec<u8>) {
    out.extend_from_slice(&e.unique_process_id.to_le_bytes());
    out.extend_from_slice(&e.creator_back_trace_index.to_le_bytes());
    out.push(e.object_type_index);
    out.push(e.handle_attributes);
    out.extend_from_slice(&e.handle_value.to_le_bytes());
    out.extend_from_slice(&e.object.to_le_bytes());
    out.extend_from_slice(&e.granted_access.to_le_bytes());
    out.extend_from_slice(&[0u8; 4]);
}

#[test]
fn handle_table_parse_recovers_every_entry() {
    let a = entry(10, 44, 0xffff_8000_2222_0000);
    let b = entry(99, 8, 0xffff_8000_3333_0000);
    let mut bytes = vec![2u8, 0, 0, 0, 0, 0, 0, 0];
    raw_entry(&a, &mut bytes);
    raw_entry(&b, &mut bytes);
    let info = SystemHandleInformation::parse(&bytes).unwrap();
    assert_eq!(info.number_of_handles, 2);
    assert_eq!(info.handles, vec![a, b]);
}

#[test]
fn handle_table_shorter_than_its_count_is_rejected() {
    let a = entry(10, 44, 0xffff_8000_2222_0000);
    let mut bytes = vec![2u8, 0, 0, 0, 0, 0, 0, 0];
    raw_entry(&a, &mut bytes);
    assert_eq!(
        SystemHandleInformation::parse(&bytes),
        Err(DebugCheckError::InvalidPointer)
    );
    assert_eq!(
        SystemHandleInformation::parse(&vec![1u8, 0]),
        Err(DebugCheckError::InvalidPointer)
    );
}

// ---- buffer-growth protocol -------------------------------------------------

#[test]
fn snapshot_query_growth_converges_from_an_undersized_guess() {
    // Simulated OS: the snapshot needs far more than any fixed guess.
    let required: u32 = 40 * INITIAL_SNAPSHOT_BUFFER_LEN;
    let mut buffer_len: u32 = INITIAL_SNAPSHOT_BUFFER_LEN;
    let mut retries_left: u32 = MAX_SNAPSHOT_RETRIES;
    let mut rounds: u32 = 0;
    loop {
        let status = if buffer_len >= required { STATUS_SUCCESS } else { STATUS_INFO_LENGTH_MISMATCH };
        match query_system_information_step(status, required, retries_left) {
            SnapshotQueryStep::Retry(next_len) => {
                assert_eq!(next_len, required);
                buffer_len = next_len;
                retries_left -= 1;
                rounds += 1;
                assert!(rounds <= MAX_SNAPSHOT_RETRIES, "growth loop failed to converge");
            }
            SnapshotQueryStep::Done => break,
            SnapshotQueryStep::Fail(status) => panic!("growth loop failed with {}", status),
        }
    }
    // One resize, exactly as reported, was enough; nothing was lost.
    assert_eq!(rounds, 1);
    assert_eq!(buffer_len, required);
}

#[test]
fn snapshot_query_retry_bound_makes_failure_final() {
    let step = query_system_information_step(STATUS_INFO_LENGTH_MISMATCH, 0x2000, 0);
    assert_eq!(step, SnapshotQueryStep::Fail(STATUS_INFO_LENGTH_MISMATCH));
    let step = query_system_information_step(-0x3fff_ffff, 0x2000, MAX_SNAPSHOT_RETRIES);
    assert_eq!(step, SnapshotQueryStep::Fail(-0x3fff_ffff));
}

// ---- correlator life cycle --------------------------------------------------

#[test]
fn honeypot_detects_foreign_handle_to_its_thread() {
    let mut t = HoneyThread::default();
    t.set_honey_thread_current_process(44, 5, 10);
    let snap = table(vec![
        entry(10, 44, 0xffff_8000_2222_0000),
        entry(99, 8, 0xffff_8000_2222_0000),
    ]);
    assert_eq!(t.check(&snap).unwrap(), true);
}

#[test]
fn honeypot_ignores_own_duplicate_handles() {
    let mut t = HoneyThread::default();
    t.set_honey_thread_current_process(44, 5, 10);
    let snap = table(vec![
        entry(10, 44, 0xffff_8000_2222_0000),
        entry(10, 60, 0xffff_8000_2222_0000),
    ]);
    assert_eq!(t.check(&snap).unwrap(), false);
}

#[test]
fn honeypot_verdict_is_idempotent_and_memoizes_once() {
    let mut t = HoneyThread::default();
    t.set_honey_thread_current_process(44, 5, 10);
    let snap = table(vec![
        entry(10, 44, 0xffff_8000_2222_0000),
        entry(99, 8, 0xffff_8000_2222_0000),
    ]);
    let first = t.check(&snap).unwrap();
    let memoized = t.thread_object;
    let second = t.check(&snap).unwrap();
    assert_eq!(first, second);
    assert_eq!(t.thread_object, memoized);
    assert_eq!(memoized, 0xffff_8000_2222_0000);
}

#[test]
fn honeypot_unarmed_and_missing_object_fail_explicitly() {
    let snap = table(vec![entry(99, 8, 0xffff_8000_3333_0000)]);
    let mut unarmed = HoneyThread::default();
    assert_eq!(unarmed.check(&snap), Err(DebugCheckError::NotArmed));
    let mut armed = HoneyThread::default();
    armed.set_honey_thread_current_process(44, 5, 10);
    // The table holds no entry for the planted thread at all.
    assert_eq!(armed.check(&snap), Err(DebugCheckError::ObjectNotFound));
}

#[test]
fn honeypot_teardown_releases_the_handle_and_rearms_cleanly() {
    let mut t = HoneyThread::default();
    t.set_honey_thread_current_process(44, 5, 10);
    let snap = table(vec![entry(10, 44, 0xffff_8000_2222_0000)]);
    assert_eq!(t.check(&snap).unwrap(), false);

    // Teardown hands the exclusively owned handle back exactly once.
    assert_eq!(t.teardown(), Some(44));
    assert_eq!(t.thread_handle, None);
    // A torn-down correlator never works on the stale handle silently.
    assert_eq!(t.check(&snap), Err(DebugCheckError::NotArmed));

    // Re-arming starts from a clean state and works again.
    t.set_honey_thread_current_process(50, 6, 10);
    let snap2 = table(vec![entry(10, 50, 0xffff_8000_4444_0000)]);
    assert_eq!(t.check(&snap2).unwrap(), false);
}

// ---- mitigation status interpretation ---------------------------------------

#[test]
fn hide_thread_directive_status_maps_to_the_error_taxonomy() {
    assert_eq!(disable_thread_debug(STATUS_SUCCESS), Ok(()));
    assert_eq!(
        disable_thread_debug(-0x3fff_fff0),
        Err(DebugCheckError::ApiFailure {
            call: ApiCall::HideThreadFromDebugger,
            status: -0x3fff_fff0
        })
    );
    // Idempotent on the OS side: a repeated success stays a success.
    assert_eq!(disable_thread_debug(STATUS_SUCCESS), Ok(()));
}

// ---- attach-time asymmetry over one snapshot ---------------------------------

fn snapshot_with(peb: WinPeb, heap: WinProcessHeap, present: bool) -> DebugSnapshot {
    let mut honey = HoneyThread::default();
    honey.set_honey_thread_current_process(44, 5, 10);
    DebugSnapshot {
        debugger_present: present,
        peb,
        heap,
        regs: DebugRegisters::default(),
        port: QueryOutcome { status: STATUS_SUCCESS, value: 0 },
        object: QueryOutcome { status: STATUS_SUCCESS, value: 0 },
        flags: QueryOutcome { status: STATUS_SUCCESS, value: 0 },
        honey,
        handle_table: table(vec![entry(10, 44, 0xffff_8000_2222_0000)]),
    }
}

#[test]
fn creation_time_attach_trips_every_latched_probe() {
    let snap = snapshot_with(
        WinPeb { being_debugged: 1, process_heap: 0x1000, nt_global_flag: 0x70 },
        WinProcessHeap { flags: 0x4000_0062, force_flags: 0x4000_0060 },
        true,
    );
    assert_eq!(DetectorKind::PresenceFlag.evaluate(&snap), Ok(true));
    assert_eq!(DetectorKind::PebBeingDebugged.evaluate(&snap), Ok(true));
    assert_eq!(DetectorKind::PebNtGlobalFlag.evaluate(&snap), Ok(true));
    assert_eq!(DetectorKind::HeapFlags.evaluate(&snap), Ok(true));
}

#[test]
fn post_start_attach_leaves_latched_probes_clean() {
    let snap = snapshot_with(
        WinPeb { being_debugged: 0, process_heap: 0x1000, nt_global_flag: 0 },
        WinProcessHeap { flags: 2, force_flags: 0 },
        true,
    );
    // The live accessor sees the attach; the creation-latched probes must
    // keep answering false — required behaviour, not a defect.
    assert_eq!(DetectorKind::PresenceFlag.evaluate(&snap), Ok(true));
    assert_eq!(DetectorKind::PebBeingDebugged.evaluate(&snap), Ok(false));
    assert_eq!(DetectorKind::PebNtGlobalFlag.evaluate(&snap), Ok(false));
    assert_eq!(DetectorKind::HeapFlags.evaluate(&snap), Ok(false));
}

// ---- the registry ------------------------------------------------------------

#[test]
fn empty_registry_selects_nothing() {
    let registry = Exception::default();
    assert_eq!(registry.rand_handlers(), None);
    assert_eq!(registry.select_handler(0), None);
}

#[test]
fn registry_selection_is_a_registered_detector() {
    let mut registry = Exception::default();
    registry.register_handler(DetectorKind::PebBeingDebugged);
    registry.register_handler(DetectorKind::HeapFlags);
    registry.register_handler(DetectorKind::Honeypot);
    for _ in 0..64 {
        let picked = *registry.rand_handlers().unwrap();
        assert!(registry.handlers.contains(&picked));
    }
    assert_eq!(registry.select_handler(1), Some(&DetectorKind::HeapFlags));
    assert_eq!(registry.select_handler(3), None);
}

#[test]
fn singleton_registry_always_selects_its_only_detector() {
    let mut registry = Exception::default();
    registry.register_handler(DetectorKind::DebugPort);
    // An index ever out of range would panic or miss; the draw must stay
    // below the length.
    for _ in 0..32 {
        assert_eq!(registry.rand_handlers(), Some(&DetectorKind::DebugPort));
    }
}
