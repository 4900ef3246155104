use wasmer_ios::args::collect_args;
use wasmer_ios::boundary::{check_pointers, collapse_result, prepare_execution, RUNTIME_STACK_BYTES};
use wasmer_ios::descriptor::{
    readiness_report, resize_verdict, stat_profile, unlink_verdict, RequestVerdict,
};
use wasmer_ios::driver::{
    advance, exit_code_for, extract_exit_code, missing_entry_diagnostic, resolve_entry_point,
    CallOutcome, DriverEvent, DriverPhase, EntryPoint, FAILURE_EXIT_CODE, TRAP_EXIT_CODE,
};
use wasmer_ios::header::{validate_header, HeaderError};
use wasmer_ios::session::plan_streams;
use wasmer_ios::version::version_text;

const GOOD_HEADER: [u8; 8] = [0x00, 0x61, 0x73, 0x6D, 0x01, 0x00, 0x00, 0x00];

#[test]
fn test_version() {
    let version = version_text();
    assert!(!version.is_empty());
}

#[test]
fn version_is_nul_terminated() {
    let version = version_text();
    let bytes = version.as_bytes();
    assert!(bytes.len() > 1);
    assert_eq!(bytes[bytes.len() - 1], 0);
    assert!(bytes[..bytes.len() - 1].iter().all(|&b| b != 0));
}

#[test]
fn version_constant_across_calls() {
    let first = version_text();
    let _ = validate_header(&[]);
    let second = version_text();
    assert_eq!(first, second);
}

#[test]
fn header_empty_too_small() {
    assert_eq!(validate_header(&[]), Err(HeaderError::TooSmall));
}

#[test]
fn header_seven_bytes_too_small() {
    assert_eq!(
        validate_header(&GOOD_HEADER[..7]),
        Err(HeaderError::TooSmall)
    );
}

#[test]
fn header_bad_magic() {
    let mut bytes = GOOD_HEADER;
    bytes[0] = 0x01;
    assert_eq!(validate_header(&bytes), Err(HeaderError::BadMagic));
}

#[test]
fn header_bad_version() {
    let mut bytes = GOOD_HEADER;
    bytes[4] = 0x02;
    assert_eq!(validate_header(&bytes), Err(HeaderError::BadVersion));
}

#[test]
fn header_accepts_exact_prefix() {
    assert_eq!(validate_header(&GOOD_HEADER), Ok(()));
    let mut longer = GOOD_HEADER.to_vec();
    longer.extend_from_slice(&[0x07, 0x2A]);
    assert_eq!(validate_header(&longer), Ok(()));
}

#[test]
fn args_skip_malformed_entry() {
    let decoded = vec![
        Some("python".to_owned()),
        None,
        Some("script.py".to_owned()),
    ];
    let kept = collect_args(&decoded);
    assert_eq!(kept, vec!["python".to_owned(), "script.py".to_owned()]);
}

#[test]
fn args_all_kept_in_order() {
    let decoded = vec![Some("a".to_owned()), Some("b".to_owned()), Some("c".to_owned())];
    let kept = collect_args(&decoded);
    assert_eq!(kept, vec!["a".to_owned(), "b".to_owned(), "c".to_owned()]);
}

#[test]
fn args_empty() {
    let kept = collect_args(&Vec::new());
    assert!(kept.is_empty());
}

#[test]
fn negative_fd_leaves_stream_unbound() {
    let plan = plan_streams(-1, 5, 7);
    assert_eq!(plan.stdin, None);
    assert_eq!(plan.stdout, Some(5));
    assert_eq!(plan.stderr, Some(7));
}

#[test]
fn all_negative_fds_unbound() {
    let plan = plan_streams(-1, -2, -3);
    assert_eq!(plan.stdin, None);
    assert_eq!(plan.stdout, None);
    assert_eq!(plan.stderr, None);
}

#[test]
fn resolve_prefers_command_export() {
    let exports = vec!["_start".to_owned(), "main".to_owned()];
    assert_eq!(resolve_entry_point(&exports), Some(EntryPoint::Command));
}

#[test]
fn resolve_only_start() {
    let exports = vec!["memory".to_owned(), "_start".to_owned()];
    assert_eq!(resolve_entry_point(&exports), Some(EntryPoint::Command));
}

#[test]
fn resolve_falls_back_to_reactor() {
    let exports = vec!["memory".to_owned(), "main".to_owned()];
    assert_eq!(resolve_entry_point(&exports), Some(EntryPoint::Reactor));
}

#[test]
fn resolve_neither_entry() {
    let exports = vec!["memory".to_owned(), "helper".to_owned()];
    assert_eq!(resolve_entry_point(&exports), None);
}

#[test]
fn command_return_is_zero() {
    let code = exit_code_for(EntryPoint::Command, &CallOutcome::Returned(None));
    assert_eq!(code, 0);
}

#[test]
fn reactor_return_reports_value() {
    let code = exit_code_for(EntryPoint::Reactor, &CallOutcome::Returned(Some(42)));
    assert_eq!(code, 42);
    let code = exit_code_for(EntryPoint::Reactor, &CallOutcome::Returned(None));
    assert_eq!(code, 0);
}

#[test]
fn command_exit_trap_is_zero() {
    let msg = b"WASI exited with code: 0".to_vec();
    let code = exit_code_for(EntryPoint::Command, &CallOutcome::Trapped(msg));
    assert_eq!(code, 0);
}

#[test]
fn command_genuine_trap_is_one() {
    let msg = b"out of bounds memory access".to_vec();
    let code = exit_code_for(EntryPoint::Command, &CallOutcome::Trapped(msg));
    assert_eq!(code, TRAP_EXIT_CODE);
}

#[test]
fn reactor_exit_trap_is_zero() {
    let msg = b"WASI exited with code: 0".to_vec();
    let code = exit_code_for(EntryPoint::Reactor, &CallOutcome::Trapped(msg));
    assert_eq!(code, 0);
}

#[test]
fn reactor_genuine_trap_is_one() {
    let msg = b"unreachable executed".to_vec();
    let code = exit_code_for(EntryPoint::Reactor, &CallOutcome::Trapped(msg));
    assert_eq!(code, TRAP_EXIT_CODE);
}

#[test]
fn extract_exit_code_finds_marker() {
    assert_eq!(extract_exit_code(b"process exit"), Some(0));
    assert_eq!(extract_exit_code(b"exit"), Some(0));
    assert_eq!(extract_exit_code(b"an exit in the middle"), Some(0));
}

#[test]
fn extract_exit_code_rejects_other_traps() {
    assert_eq!(extract_exit_code(b"unreachable executed"), None);
    assert_eq!(extract_exit_code(b"exi"), None);
    assert_eq!(extract_exit_code(b""), None);
}

#[test]
fn driver_happy_path_command() {
    let phase = DriverPhase::Uninstantiated;
    let phase = advance(phase, DriverEvent::InstantiationDone(true));
    let phase = advance(phase, DriverEvent::InitializationDone(true));
    let phase = advance(phase, DriverEvent::ExportsListed(vec!["_start".to_owned()]));
    assert!(matches!(phase, DriverPhase::Running(EntryPoint::Command)));
    let phase = advance(phase, DriverEvent::EntryReturned(None));
    assert!(matches!(phase, DriverPhase::Finished(0)));
}

#[test]
fn driver_reactor_reports_result() {
    let phase = DriverPhase::Uninstantiated;
    let phase = advance(phase, DriverEvent::InstantiationDone(true));
    let phase = advance(phase, DriverEvent::InitializationDone(true));
    let phase = advance(phase, DriverEvent::ExportsListed(vec!["main".to_owned()]));
    assert!(matches!(phase, DriverPhase::Running(EntryPoint::Reactor)));
    let phase = advance(phase, DriverEvent::EntryReturned(Some(7)));
    assert!(matches!(phase, DriverPhase::Finished(7)));
}

#[test]
fn driver_instantiation_failure_is_sentinel() {
    let phase = advance(
        DriverPhase::Uninstantiated,
        DriverEvent::InstantiationDone(false),
    );
    assert!(matches!(phase, DriverPhase::Finished(code) if code == FAILURE_EXIT_CODE));
}

#[test]
fn driver_missing_entry_is_sentinel() {
    let phase = DriverPhase::Uninstantiated;
    let phase = advance(phase, DriverEvent::InstantiationDone(true));
    let phase = advance(phase, DriverEvent::InitializationDone(true));
    let phase = advance(phase, DriverEvent::ExportsListed(vec!["memory".to_owned()]));
    assert!(matches!(phase, DriverPhase::Finished(code) if code == FAILURE_EXIT_CODE));
}

#[test]
fn missing_entry_diagnostic_lists_actual_exports() {
    let exports = vec!["memory".to_owned(), "helper".to_owned()];
    let lines = missing_entry_diagnostic(&exports);
    assert_eq!(
        lines,
        vec![
            "wasmer-ios: No _start or main function found in WASM module".to_owned(),
            "  Available exports:".to_owned(),
            "    - memory".to_owned(),
            "    - helper".to_owned(),
        ]
    );
}

#[test]
fn boundary_rejects_missing_pointers() {
    assert_eq!(check_pointers(true, false), Some(FAILURE_EXIT_CODE));
    assert_eq!(check_pointers(false, true), Some(FAILURE_EXIT_CODE));
    assert_eq!(check_pointers(true, true), Some(FAILURE_EXIT_CODE));
    assert_eq!(check_pointers(false, false), None);
}

#[test]
fn prepare_execution_builds_session() {
    let decoded = vec![Some("guest".to_owned()), None, Some("-v".to_owned())];
    let envs = vec![("HOME".to_owned(), "/tmp".to_owned())];
    let session = prepare_execution(&GOOD_HEADER, &decoded, envs, 0, 1, -1).unwrap();
    assert_eq!(session.args, vec!["guest".to_owned(), "-v".to_owned()]);
    assert_eq!(session.envs, vec![("HOME".to_owned(), "/tmp".to_owned())]);
    assert_eq!(session.streams.stdin, Some(0));
    assert_eq!(session.streams.stdout, Some(1));
    assert_eq!(session.streams.stderr, None);
}

#[test]
fn prepare_execution_rejects_bad_binary() {
    let decoded = vec![Some("guest".to_owned())];
    let result = prepare_execution(&[0x00, 0x61], &decoded, Vec::new(), -1, -1, -1);
    assert_eq!(result.err(), Some(HeaderError::TooSmall));
}

#[test]
fn collapse_result_reports_code_or_sentinel() {
    assert_eq!(collapse_result(&Ok(5)), 5);
    assert_eq!(collapse_result(&Ok(0)), 0);
    assert_eq!(collapse_result(&Err(b"instantiation failed".to_vec())), FAILURE_EXIT_CODE);
}

#[test]
fn descriptor_policy_is_fixed() {
    let profile = stat_profile();
    assert_eq!(profile.last_accessed, 0);
    assert_eq!(profile.last_modified, 0);
    assert_eq!(profile.created_time, 0);
    assert_eq!(profile.size, 0);
    assert_eq!(resize_verdict(), RequestVerdict::PermissionDenied);
    assert_eq!(unlink_verdict(), RequestVerdict::Granted);
    assert_eq!(readiness_report(), 1);
}

#[test]
fn runtime_stack_is_at_least_eight_mib() {
    assert!(RUNTIME_STACK_BYTES >= 8 * 1024 * 1024);
}
