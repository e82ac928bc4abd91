//! Time arithmetic for the three animation cadences.
//!
//! The event loop hands the session a monotonic clock reading in
//! milliseconds; these helpers decide whether a cadence's interval has
//! elapsed since its last recorded tick. Calling a check again without
//! elapsed time is a no-op by construction: the check is pure.

use vstd::prelude::*;

verus! {

/// A full interval of `interval_ms` milliseconds has elapsed between the
/// tick recorded at `last_ms` and the clock reading `now_ms`.
pub open spec fn spec_tick_elapsed(now_ms: u64, last_ms: u64, interval_ms: u64) -> bool {
    now_ms >= last_ms + interval_ms
}

/// Decides whether a cadence is due. A clock reading older than the last
/// recorded tick never counts as elapsed.
pub fn tick_elapsed(now_ms: u64, last_ms: u64, interval_ms: u64) -> (due: bool)
    ensures
        due == spec_tick_elapsed(now_ms, last_ms, interval_ms),
{
    now_ms >= last_ms && now_ms - last_ms >= interval_ms
}

} // verus!
