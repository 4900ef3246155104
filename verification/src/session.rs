//! The execution session: the guest's assembled environment.
//!
//! A session aggregates the argument list, the environment snapshot, and
//! a plan for the three standard stream bindings. A stream is planned for
//! binding only when the host supplied a non-negative descriptor for it;
//! a negative descriptor means "leave that stream at its default". The
//! host's ordering of arguments and environment pairs is preserved.

use vstd::prelude::*;

verus! {

/// The plan for one standard stream: the host descriptor to duplicate
/// and bind, or `None` to leave the stream at its default.
#[derive(Clone, Copy, Debug, PartialEq, Eq)]
pub struct StreamPlan {
    /// The descriptor to duplicate for stdin, if any.
    pub stdin: Option<i32>,
    /// The descriptor to duplicate for stdout, if any.
    pub stdout: Option<i32>,
    /// The descriptor to duplicate for stderr, if any.
    pub stderr: Option<i32>,
}

/// The planned binding for a single descriptor value.
pub open spec fn planned_binding(fd: i32) -> Option<i32> {
    if fd >= 0 {
        Some(fd)
    } else {
        None
    }
}

/// The full plan the three descriptors give rise to.
pub open spec fn plan_spec(stdin_fd: i32, stdout_fd: i32, stderr_fd: i32) -> StreamPlan {
    StreamPlan {
        stdin: planned_binding(stdin_fd),
        stdout: planned_binding(stdout_fd),
        stderr: planned_binding(stderr_fd),
    }
}

/// Decide which streams to bind: exactly those with a non-negative
/// descriptor, each independently of the other two.
pub fn plan_streams(stdin_fd: i32, stdout_fd: i32, stderr_fd: i32) -> (r: StreamPlan)
    ensures
        r == plan_spec(stdin_fd, stdout_fd, stderr_fd),
        r.stdin == planned_binding(stdin_fd),
        r.stdout == planned_binding(stdout_fd),
        r.stderr == planned_binding(stderr_fd),
{
    StreamPlan {
        stdin: if stdin_fd >= 0 {
            Some(stdin_fd)
        } else {
            None
        },
        stdout: if stdout_fd >= 0 {
            Some(stdout_fd)
        } else {
            None
        },
        stderr: if stderr_fd >= 0 {
            Some(stderr_fd)
        } else {
            None
        },
    }
}

/// Law: a negative descriptor leaves its own stream unbound, and each
/// stream's plan depends on its own descriptor alone — changing one
/// descriptor never affects how the other two streams are planned.
pub proof fn lemma_stream_plan_independent(
    in_a: i32,
    out_a: i32,
    err_a: i32,
    in_b: i32,
    out_b: i32,
    err_b: i32,
)
    ensures
        in_a < 0 ==> plan_spec(in_a, out_a, err_a).stdin is None,
        out_a < 0 ==> plan_spec(in_a, out_a, err_a).stdout is None,
        err_a < 0 ==> plan_spec(in_a, out_a, err_a).stderr is None,
        in_a == in_b ==> plan_spec(in_a, out_a, err_a).stdin == plan_spec(in_b, out_b, err_b).stdin,
        out_a == out_b ==> plan_spec(in_a, out_a, err_a).stdout == plan_spec(
            in_b,
            out_b,
            err_b,
        ).stdout,
        err_a == err_b ==> plan_spec(in_a, out_a, err_a).stderr == plan_spec(
            in_b,
            out_b,
            err_b,
        ).stderr,
{
}

/// A ready-to-run execution session: arguments, environment snapshot,
/// and the stream binding plan, in the order the host presented them.
pub struct Session {
    /// The guest's argument list, in presentation order.
    pub args: Vec<String>,
    /// The environment snapshot, as (name, value) pairs in presentation
    /// order, captured once at session-build time.
    pub envs: Vec<(String, String)>,
    /// Which standard streams to bind, and to which host descriptors.
    pub streams: StreamPlan,
}

/// Assemble a session: attach the arguments, then the environment pairs,
/// then plan each stream binding. Nothing is reordered or altered.
pub fn build_session(
    args: Vec<String>,
    envs: Vec<(String, String)>,
    stdin_fd: i32,
    stdout_fd: i32,
    stderr_fd: i32,
) -> (r: Session)
    ensures
        r.args@ == args@,
        r.envs@ == envs@,
        r.streams.stdin == planned_binding(stdin_fd),
        r.streams.stdout == planned_binding(stdout_fd),
        r.streams.stderr == planned_binding(stderr_fd),
{
    let streams = plan_streams(stdin_fd, stdout_fd, stderr_fd);
    Session { args, envs, streams }
}

} // verus!
