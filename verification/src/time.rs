//! Clock readings and lengths of time, all in whole nanoseconds.
//!
//! A clock reading is the number of nanoseconds since an origin that the
//! caller picks once; only differences between readings matter.

use vstd::prelude::*;

verus! {

/// Nanoseconds in one second.
pub const NANOS_PER_SEC: u64 = 1_000_000_000;

/// A seek closer than this to the current position leaves the session alone.
pub const SEEK_TOLERANCE: u64 = 10_000_000;

/// Past this position "previous" restarts the current track.
pub const RESTART_THRESHOLD: u64 = 3_000_000_000;

/// Time that has passed between the reading `since` and the reading `now`;
/// zero when `now` lies before `since`.
pub open spec fn elapsed_between(since: u64, now: u64) -> nat {
    if now >= since {
        (now - since) as nat
    } else {
        0
    }
}

/// Computes [`elapsed_between`].
pub fn elapsed(since: u64, now: u64) -> (gone: u64)
    ensures
        gone == elapsed_between(since, now),
{
    if now >= since {
        now - since
    } else {
        0
    }
}

} // verus!
