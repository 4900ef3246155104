//! The fixed policy of a duplicated-descriptor stream binding.
//!
//! A stream binding wraps a duplicate of a host descriptor. Arbitrary
//! descriptors do not reliably answer stat-like queries, have no
//! filesystem path to unlink, and cannot meaningfully be resized, so the
//! binding answers those requests with fixed verdicts; and since bound
//! descriptors are assumed to be blocking-capable pipes or files, a
//! readiness poll always reports one unit of immediate readiness.

use vstd::prelude::*;

verus! {

/// The metadata a stream binding reports for stat-like queries: all
/// fields are the fixed "unknown" value.
#[derive(Clone, Copy, Debug, PartialEq, Eq)]
pub struct StatProfile {
    /// Reported last-access time.
    pub last_accessed: u64,
    /// Reported last-modification time.
    pub last_modified: u64,
    /// Reported creation time.
    pub created_time: u64,
    /// Reported size.
    pub size: u64,
}

/// The verdict on a filesystem-style request against a stream binding.
#[derive(Clone, Copy, Debug, PartialEq, Eq)]
pub enum RequestVerdict {
    /// The request is treated as a successful no-op.
    Granted,
    /// The request is refused as not meaningful for a live stream.
    PermissionDenied,
}

/// The metadata profile every stream binding reports: all values unknown,
/// reported as zero.
pub fn stat_profile() -> (r: StatProfile)
    ensures
        r.last_accessed == 0,
        r.last_modified == 0,
        r.created_time == 0,
        r.size == 0,
{
    StatProfile { last_accessed: 0, last_modified: 0, created_time: 0, size: 0 }
}

/// A resize request against a live stream is refused.
pub fn resize_verdict() -> (r: RequestVerdict)
    ensures
        r == RequestVerdict::PermissionDenied,
{
    RequestVerdict::PermissionDenied
}

/// An unlink request is a no-op success: a duplicated descriptor has no
/// filesystem path to unlink.
pub fn unlink_verdict() -> (r: RequestVerdict)
    ensures
        r == RequestVerdict::Granted,
{
    RequestVerdict::Granted
}

/// A readiness poll reports one unit of immediate readiness.
pub fn readiness_report() -> (r: usize)
    ensures
        r == 1,
{
    1
}

} // verus!
