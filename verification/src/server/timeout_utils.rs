//! The lifetime cap of a connection, checked only now and then.

use crate::error::ProtocolError;
use crate::server::state::{ServerView, TestState};
use vstd::prelude::*;

verus! {

/// Seconds that a connection may live.
pub const CONNECTION_TIMEOUT_SECS: u64 = 60;

/// Nanoseconds that a connection may live.
pub const CONNECTION_TIMEOUT_NS: u64 = 60_000_000_000;

/// Handler invocations between two looks at the clock.
pub const TIMEOUT_CHECK_INTERVAL: u32 = 10000;

/// A connection taken up at `start` has outlived its cap at `now`.
pub open spec fn timed_out(start: u64, now: u64) -> bool {
    now > start && now - start > CONNECTION_TIMEOUT_NS
}

/// Whether a connection taken up at `start` has outlived its cap at `now`.
pub fn is_timed_out(start: u64, now: u64) -> (r: bool)
    ensures
        r == timed_out(start, now),
{
    now > start && now - start > CONNECTION_TIMEOUT_NS
}

/// The count of handler invocations after one more; it wraps at 32 bits.
pub open spec fn next_count(count: u32) -> u32 {
    if count == u32::MAX {
        0
    } else {
        (count + 1) as u32
    }
}

/// Counts one handler invocation, and on every ten-thousandth looks at the
/// clock: a connection older than its cap is reported as timed out.
/// Nothing but the count changes.
pub fn check_timeout_periodic(state: &mut TestState, now: u64) -> (r: Result<
    usize,
    ProtocolError,
>)
    ensures
        final(state)@ == (ServerView {
            loop_iteration_count: next_count(old(state).loop_iteration_count),
            ..old(state)@
        }),
        final(state).io == old(state).io,
        r == if next_count(old(state).loop_iteration_count) % TIMEOUT_CHECK_INTERVAL == 0
            && timed_out(old(state).connection_start, now) {
            Err::<usize, ProtocolError>(ProtocolError::Timeout)
        } else {
            Ok::<usize, ProtocolError>(0)
        },
{
    state.loop_iteration_count = if state.loop_iteration_count == u32::MAX {
        0
    } else {
        state.loop_iteration_count + 1
    };
    if state.loop_iteration_count % TIMEOUT_CHECK_INTERVAL == 0 {
        if is_timed_out(state.connection_start, now) {
            return Err(ProtocolError::Timeout);
        }
    }
    Ok(0)
}

} // verus!
