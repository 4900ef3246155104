//! Decisions of the C boundary adapter.
//!
//! The host hands over a guest binary, an argument array and three
//! descriptor values. The boundary rejects a missing binary or argument
//! array outright, validates the binary's header, assembles the session
//! from whatever arguments decoded, and collapses the pipeline's result
//! into the single integer the host receives. No failure inside the
//! pipeline reaches the host as anything but the failure sentinel.

use vstd::prelude::*;
use crate::args::{collect_args, kept_args};
use crate::driver::FAILURE_EXIT_CODE;
use crate::header::{header_ok, header_verdict, validate_header, HeaderError};
use crate::session::{build_session, planned_binding, Session};

verus! {

/// The call stack given to the execution runtime: large enough for deep
/// guest call chains, well above the default of about 2 MiB.
pub const RUNTIME_STACK_BYTES: usize = 8 * 1024 * 1024;

/// The boundary's verdict on the two host pointers: a missing binary or
/// a missing argument array stops the call at the sentinel, before any
/// other work.
pub open spec fn pointer_verdict(binary_missing: bool, args_missing: bool) -> Option<i32> {
    if binary_missing || args_missing {
        Some(FAILURE_EXIT_CODE)
    } else {
        None
    }
}

/// Decide whether the call stops at the boundary: it does exactly when
/// the binary or the argument array is missing, and then with the
/// failure sentinel.
pub fn check_pointers(binary_missing: bool, args_missing: bool) -> (r: Option<i32>)
    ensures
        r == pointer_verdict(binary_missing, args_missing),
{
    if binary_missing || args_missing {
        Some(FAILURE_EXIT_CODE)
    } else {
        None
    }
}

/// Validate the guest binary and assemble the session: reject a binary
/// whose header fails, keep exactly the arguments that decoded, snapshot
/// the environment pairs in order, and plan the three stream bindings.
pub fn prepare_execution(
    bytes: &[u8],
    decoded_args: &Vec<Option<String>>,
    envs: Vec<(String, String)>,
    stdin_fd: i32,
    stdout_fd: i32,
    stderr_fd: i32,
) -> (r: Result<Session, HeaderError>)
    ensures
        r is Ok <==> header_ok(bytes@),
        r is Err ==> r->Err_0 == header_verdict(bytes@)->Err_0,
        r is Ok ==> {
            &&& r->Ok_0.args@ == kept_args(decoded_args@)
            &&& r->Ok_0.envs@ == envs@
            &&& r->Ok_0.streams.stdin == planned_binding(stdin_fd)
            &&& r->Ok_0.streams.stdout == planned_binding(stdout_fd)
            &&& r->Ok_0.streams.stderr == planned_binding(stderr_fd)
        },
{
    match validate_header(bytes) {
        Ok(()) => {},
        Err(e) => {
            return Err(e);
        },
    }
    let args = collect_args(decoded_args);
    Ok(build_session(args, envs, stdin_fd, stdout_fd, stderr_fd))
}

/// Collapse the pipeline's result for the host: a completed run reports
/// its exit code, and any failure that carried a diagnostic out of the
/// pipeline reports the failure sentinel instead.
pub fn collapse_result(outcome: &Result<i32, Vec<u8>>) -> (code: i32)
    ensures
        outcome is Ok ==> code == outcome->Ok_0,
        outcome is Err ==> code == FAILURE_EXIT_CODE,
{
    match outcome {
        Ok(code) => *code,
        Err(_) => FAILURE_EXIT_CODE,
    }
}

/// Law: a binary shorter than eight bytes, or one whose first eight
/// bytes are not the expected header, never yields a session — the call
/// is rejected before the interpreter is consulted.
pub proof fn lemma_rejected_before_interpreter(b: Seq<u8>)
    requires
        b.len() < 8 || b.subrange(0, 8) != crate::header::wasm_magic()
            + crate::header::wasm_version(),
    ensures
        !header_ok(b),
        header_verdict(b) is Err,
{
    if b.len() < 8 {
        crate::header::lemma_short_binary_rejected(b);
    } else {
        crate::header::lemma_bad_prefix_rejected(b);
    }
}

} // verus!
