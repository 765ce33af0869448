//! What a connection asks of the readiness poller, and what a handler
//! reports back.

use vstd::prelude::*;

verus! {

/// The readiness that a connection waits for.
#[derive(Clone, Copy, Debug, PartialEq, Eq, Structural)]
pub enum Interest {
    /// The phase receives.
    Readable,
    /// The phase sends.
    Writable,
    /// The connection is over.
    Closed,
}

/// What handling one readiness event came to.
#[derive(Clone, Copy, Debug, PartialEq, Eq, Structural)]
pub enum Progress {
    /// The phase goes on; the interest stays as it is.
    Pending,
    /// A phase boundary was crossed; the interest is that of the new phase.
    Advanced,
}

/// Nanoseconds from `start` to `now` on a clock that does not run backwards;
/// zero where no start was taken or the clock stood still.
pub open spec fn elapsed_since(start: Option<u64>, now: u64) -> u64 {
    match start {
        Some(s) => if now >= s {
            (now - s) as u64
        } else {
            0
        },
        None => 0,
    }
}

/// Nanoseconds from `start` to `now`.
pub fn elapsed(start: Option<u64>, now: u64) -> (r: u64)
    ensures
        r == elapsed_since(start, now),
{
    match start {
        Some(s) => if now >= s {
            now - s
        } else {
            0
        },
        None => 0,
    }
}

/// Nanoseconds in a second.
pub const NANOS_PER_SECOND: u64 = 1_000_000_000;

/// A number of seconds in nanoseconds, capped at what 64 bits hold.
pub open spec fn seconds_as_nanos(seconds: u64) -> u64 {
    if seconds * NANOS_PER_SECOND <= u64::MAX {
        (seconds * NANOS_PER_SECOND) as u64
    } else {
        u64::MAX
    }
}

/// A number of seconds in nanoseconds.
pub fn nanos_of_seconds(seconds: u64) -> (r: u64)
    ensures
        r == seconds_as_nanos(seconds),
{
    match seconds.checked_mul(NANOS_PER_SECOND) {
        Some(d) => d,
        None => u64::MAX,
    }
}

} // verus!
