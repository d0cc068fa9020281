//! The library's laws: what holds of every identity, window and quota, proved
//! once and for all over the same spec functions the engine's contracts use.
use vstd::prelude::*;

use crate::limiter::{EXTENDED_MULTIPLIER, spec_effective_limit};
use crate::status::status_of;
use crate::store::{StoreModel, count_of, incremented};
use crate::window::{WINDOW_SECS, spec_window_start, spec_window_ttl};

verus! {

/// The store contents after `k` further atomic increments of `key`.
pub open spec fn incremented_times(m: StoreModel, key: Seq<char>, k: nat) -> StoreModel
    decreases k,
{
    if k == 0 {
        m
    } else {
        incremented(incremented_times(m, key, (k - 1) as nat), key)
    }
}

/// Successive increments of one key yield strictly successive counts: after
/// `k` of them the counter stands exactly `k` higher, so no two of them can
/// have observed the same post-increment value.
pub proof fn lemma_counts_accumulate(m: StoreModel, key: Seq<char>, k: nat)
    ensures
        count_of(incremented_times(m, key, k), key) == count_of(m, key) + k,
    decreases k,
{
    if k > 0 {
        lemma_counts_accumulate(m, key, (k - 1) as nat);
    }
}

/// Law: in a window whose counter starts at zero, the k-th check observes
/// usage exactly `k`; the first `limit` checks are all allowed, and from
/// call `limit + 1` on every check is denied.
pub proof fn lemma_quota_boundary(m: StoreModel, key: Seq<char>, limit: u32, ttl: u64, k: nat)
    requires
        count_of(m, key) == 0,
        1 <= k,
    ensures
        ({
            let usage = count_of(incremented_times(m, key, (k - 1) as nat), key) + 1;
            &&& usage == k
            &&& (k <= limit ==> status_of(limit, ttl, usage).is_allowed)
            &&& (k > limit ==> !status_of(limit, ttl, usage).is_allowed)
        }),
{
    lemma_counts_accumulate(m, key, (k - 1) as nat);
}

/// Law: after the k-th allowed call, the remaining quota is `limit - k`.
pub proof fn lemma_remaining_counts_down(limit: u32, ttl: u64, k: nat)
    requires
        1 <= k <= limit,
    ensures
        status_of(limit, ttl, k).remaining == limit - k,
{
}

/// Law: within one window, the reported reset time never increases from one
/// call to a later one.
pub proof fn lemma_reset_after_monotone(n1: u64, n2: u64)
    requires
        n1 <= n2,
        spec_window_start(n1) == spec_window_start(n2),
    ensures
        spec_window_ttl(n2) <= spec_window_ttl(n1),
{
}

/// Law: at the first instant of a new window the reset time is the full
/// window length.
pub proof fn lemma_reset_full_at_window_start(n: u64)
    requires
        n == spec_window_start(n),
    ensures
        spec_window_ttl(n) == WINDOW_SECS,
{
}

/// Law: the extended tier multiplies the effective limit by exactly ten.
/// The counter itself is tier-agnostic: the key a check increments,
/// `spec_check_key`, takes no tier argument at all, so usage under either
/// tier accumulates in the one shared counter.
pub proof fn lemma_extended_tier(base: u32)
    requires
        base * EXTENDED_MULTIPLIER <= u32::MAX,
    ensures
        spec_effective_limit(base, true) == EXTENDED_MULTIPLIER * spec_effective_limit(
            base,
            false,
        ),
{
}

/// Law: every status is internally consistent: it reports the limit and the
/// reset time it was computed from, a retry hint is present exactly when the
/// request is denied and then equals the reset time, the remaining quota
/// never exceeds the limit, and usage up to and including the limit is
/// allowed.
pub proof fn lemma_status_shape(limit: u32, ttl: u64, usage: nat)
    ensures
        ({
            let st = status_of(limit, ttl, usage);
            &&& st.limit == limit
            &&& st.reset_after == ttl
            &&& (st.retry_after is Some <==> !st.is_allowed)
            &&& (st.retry_after is Some ==> st.retry_after == Some(ttl))
            &&& st.remaining <= limit
            &&& (st.is_allowed <==> usage <= limit)
        }),
{
}

/// Law: increments never touch an armed expiry: however many increments a
/// counter takes, every key's armed ttl stays exactly as it was.
pub proof fn lemma_increments_keep_ttl(m: StoreModel, key: Seq<char>, k: nat)
    ensures
        incremented_times(m, key, k).ttls == m.ttls,
    decreases k,
{
    if k > 0 {
        lemma_increments_keep_ttl(m, key, (k - 1) as nat);
    }
}

} // verus!
