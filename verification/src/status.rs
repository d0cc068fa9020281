//! The outcome of one rate-limit check, and the pure decision rule that
//! produces it from the tier-selected limit, the seconds left in the window,
//! and the post-increment usage count.
use vstd::prelude::*;

verus! {

/// Raised when the counter store cannot be reached or answers with a
/// protocol error; never coerced into an allow or deny decision.
#[derive(Clone, Copy, Debug, PartialEq, Eq, Structural)]
pub struct StoreUnavailable;

/// The status of one rate-limit check.
#[derive(Clone, Copy, Debug, PartialEq, Eq)]
pub struct RateLimitStatus {
    /// Whether the current request is allowed under the rate limit.
    pub is_allowed: bool,
    /// Seconds until the next allowed request (only present when denied).
    pub retry_after: Option<u64>,
    /// The total request limit for the window, after the tier multiplier.
    pub limit: u32,
    /// Remaining requests in the current window, floored at zero.
    pub remaining: u32,
    /// Seconds until the current rate limit window resets.
    pub reset_after: u64,
}

/// The status a check reports when the post-increment usage for the window is
/// `usage`, the tier-selected limit is `limit`, and `ttl` seconds remain in
/// the window. Usage up to and including `limit` is allowed.
pub open spec fn status_of(limit: u32, ttl: u64, usage: nat) -> RateLimitStatus {
    if usage <= limit {
        RateLimitStatus {
            is_allowed: true,
            retry_after: None,
            limit,
            remaining: (limit - usage) as u32,
            reset_after: ttl,
        }
    } else {
        RateLimitStatus {
            is_allowed: false,
            retry_after: Some(ttl),
            limit,
            remaining: 0,
            reset_after: ttl,
        }
    }
}

/// Turns the usage count the store reported into the status of this check.
pub fn evaluate(limit: u32, ttl: u64, usage: u64) -> (st: RateLimitStatus)
    ensures
        st == status_of(limit, ttl, usage as nat),
{
    if usage <= limit as u64 {
        RateLimitStatus {
            is_allowed: true,
            retry_after: None,
            limit,
            remaining: limit - (usage as u32),
            reset_after: ttl,
        }
    } else {
        RateLimitStatus {
            is_allowed: false,
            retry_after: Some(ttl),
            limit,
            remaining: 0,
            reset_after: ttl,
        }
    }
}

} // verus!
