//! Fixed-window arithmetic: every window is one UTC day, `[start, start + WINDOW_SECS)`,
//! with `start` a multiple of `WINDOW_SECS` in epoch seconds.
use vstd::prelude::*;

verus! {

/// Length of one rate-limit window in seconds (one UTC day).
pub const WINDOW_SECS: u64 = 86400;

/// The start of the window containing epoch second `now`.
pub open spec fn spec_window_start(now: u64) -> u64 {
    ((now as int / WINDOW_SECS as int) * WINDOW_SECS as int) as u64
}

/// Seconds from `now` until the window containing `now` ends.
pub open spec fn spec_window_ttl(now: u64) -> u64 {
    (WINDOW_SECS as int - now as int % WINDOW_SECS as int) as u64
}

/// Computes the epoch-aligned start of the current window.
pub fn window_start(now: u64) -> (r: u64)
    ensures
        r == spec_window_start(now),
        r <= now,
        r % WINDOW_SECS == 0,
        now - r < WINDOW_SECS,
{
    (now / WINDOW_SECS) * WINDOW_SECS
}

/// Computes the seconds remaining in the current window; always in `1..=WINDOW_SECS`.
pub fn window_ttl(now: u64) -> (r: u64)
    ensures
        r == spec_window_ttl(now),
        1 <= r <= WINDOW_SECS,
        r == WINDOW_SECS - (now - spec_window_start(now)),
{
    WINDOW_SECS - now % WINDOW_SECS
}

} // verus!
