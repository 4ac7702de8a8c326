//! The rate-limiter gate: one shared timestamp of the last outbound model
//! call, and the arithmetic that spaces consecutive calls at least a
//! minimum interval apart.  The caller holds the state under exclusive
//! access, sleeps for the returned wait, and only then makes its call.

use vstd::prelude::*;

verus! {

/// The single shared gate value: when the previous model call became
/// effective, in milliseconds; `None` before the first call.
pub struct RateLimiterState {
    pub last_call_at: Option<u64>,
}

/// When a call arriving at `now` may start: immediately, or at the
/// previous call's time plus the minimum interval, whichever is later.
pub open spec fn effective_start(last: Option<u64>, now: u64, min_interval: u64) -> int {
    match last {
        Some(l) => if now < l + min_interval {
            l + min_interval
        } else {
            now as int
        },
        None => now as int,
    }
}

/// Computes how long the caller must wait before its model call, and
/// records the call's effective start as the new gate value.  A caller
/// whose interval has already elapsed waits zero but still updates the
/// gate.
pub fn wait_for_rate_limit(
    state: &mut RateLimiterState,
    now_ms: u64,
    min_interval_ms: u64,
) -> (wait_ms: u64)
    requires
        match old(state).last_call_at {
            Some(l) => l + min_interval_ms <= u64::MAX,
            None => true,
        },
    ensures
        now_ms + wait_ms == effective_start(old(state).last_call_at, now_ms, min_interval_ms),
        final(state).last_call_at == Some((now_ms + wait_ms) as u64),
        match old(state).last_call_at {
            Some(l) => now_ms + wait_ms >= l + min_interval_ms,
            None => wait_ms == 0,
        },
{
    match state.last_call_at {
        Some(last) => {
            let deadline = last + min_interval_ms;
            let wait = if now_ms < deadline {
                deadline - now_ms
            } else {
                0
            };
            state.last_call_at = Some(now_ms + wait);
            wait
        },
        None => {
            state.last_call_at = Some(now_ms);
            0
        },
    }
}

/// Back-to-back rate-limited calls are spaced by at least the minimum
/// interval: with the first call's effective start recorded as the shared
/// timestamp, the second call's effective start comes at least
/// `min_interval` later, whatever clock value the second caller reads.
pub proof fn lemma_rate_limit_spacing(first_effective: u64, now2: u64, min_interval: u64)
    requires
        first_effective + min_interval <= u64::MAX,
    ensures
        effective_start(Some(first_effective), now2, min_interval) >= first_effective
            + min_interval,
{
}

} // verus!
