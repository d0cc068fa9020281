//! The rate limiter engine. It is stateless between calls: it derives the
//! current window from the clock, lets the store's atomic increment order
//! concurrent callers, arms the window's expiry on the first increment only,
//! and turns the usage count into a status.
use vstd::prelude::*;

use crate::clock::now_epoch_secs;
use crate::key::{spec_check_key, window_key};
use crate::status::{RateLimitStatus, StoreUnavailable, evaluate, status_of};
use crate::store::{CounterStore, count_of};
use crate::window::{spec_window_ttl, window_start, window_ttl};

verus! {

/// Multiplier the extended quota tier applies to the base limit.
pub const EXTENDED_MULTIPLIER: u32 = 10;

/// The limit a check enforces: the base limit, or ten times it under the
/// extended tier.
pub open spec fn spec_effective_limit(base: u32, extend: bool) -> u32 {
    if extend {
        (base * EXTENDED_MULTIPLIER) as u32
    } else {
        base
    }
}

/// Computes the tier-selected limit.
pub fn effective_limit(base: u32, extend: bool) -> (r: u32)
    requires
        base * EXTENDED_MULTIPLIER <= u32::MAX,
    ensures
        r == spec_effective_limit(base, extend),
{
    if extend {
        base * EXTENDED_MULTIPLIER
    } else {
        base
    }
}

/// A rate limiter enforcing a per-identity request quota for each UTC day,
/// against an injected counter store.
pub struct RateLimiterStore<S: CounterStore> {
    /// The shared counter store holding all usage state.
    pub store: S,
    /// The base number of requests allowed per identity per day.
    pub request_per_day: u32,
}

impl<S: CounterStore> RateLimiterStore<S> {
    /// The base limit is small enough that the extended tier's limit still
    /// fits in the status field.
    pub open spec fn wf(&self) -> bool {
        self.request_per_day * EXTENDED_MULTIPLIER <= u32::MAX
    }

    /// Creates a rate limiter over `store` with the given base limit.
    pub fn new(store: S, request_per_day: u32) -> (r: Self)
        requires
            request_per_day * EXTENDED_MULTIPLIER <= u32::MAX,
        ensures
            r.store == store,
            r.request_per_day == request_per_day,
            r.wf(),
    {
        RateLimiterStore { store, request_per_day }
    }

    /// Checks whether a request by `user` may proceed at epoch second `now`,
    /// counting it against the shared per-window counter.
    ///
    /// Against a precise, reachable store the outcome is exact: the counter
    /// for the identity's current window goes up by one, the expiry is armed
    /// to the window's remaining seconds exactly when this increment created
    /// the entry — never re-armed later in the window — and the status is
    /// `status_of` the post-increment usage. Against any store, a returned
    /// status is `status_of` some usage value for the tier-selected limit
    /// and the window's remaining seconds, and every store failure surfaces
    /// as `StoreUnavailable`.
    ///
    /// The increment's return value is the sole trigger for arming the
    /// expiry: exactly the caller whose atomic increment returned one arms
    /// it, with no separate existence check, so concurrent callers never arm
    /// it twice. Increment and arm stay two store operations, as in the
    /// service this engine fronts; a failure between them surfaces as
    /// `StoreUnavailable` rather than being retried here.
    pub fn check_at(&mut self, user: &str, extend: bool, now: u64) -> (r: Result<
        RateLimitStatus,
        StoreUnavailable,
    >)
        requires
            old(self).wf(),
        ensures
            final(self).wf(),
            final(self).request_per_day == old(self).request_per_day,
            (match r {
                Ok(st) => exists|usage: nat|
                    st == status_of(
                        spec_effective_limit(old(self).request_per_day, extend),
                        spec_window_ttl(now),
                        usage,
                    ),
                Err(e) => e == StoreUnavailable,
            }),
            old(self).store.precise() ==> final(self).store.precise()
                && final(self).store.up() == old(self).store.up(),
            (old(self).store.precise() && old(self).store.up() && count_of(
                old(self).store.model(),
                spec_check_key(user@, now),
            ) < u64::MAX) ==> ({
                let key = spec_check_key(user@, now);
                let prior = count_of(old(self).store.model(), key);
                &&& r == Ok::<RateLimitStatus, StoreUnavailable>(
                    status_of(
                        spec_effective_limit(old(self).request_per_day, extend),
                        spec_window_ttl(now),
                        prior + 1,
                    ),
                )
                &&& final(self).store.model().counts == old(self).store.model().counts.insert(
                    key,
                    prior + 1,
                )
                &&& (prior == 0 ==> final(self).store.model().ttls
                    == old(self).store.model().ttls.insert(key, spec_window_ttl(now)))
                &&& (prior >= 1 ==> final(self).store.model().ttls
                    == old(self).store.model().ttls)
            }),
            (old(self).store.precise() && !old(self).store.up()) ==> r == Err::<
                RateLimitStatus,
                StoreUnavailable,
            >(StoreUnavailable) && final(self).store.model() == old(self).store.model(),
    {
        let limit = effective_limit(self.request_per_day, extend);
        let ws = window_start(now);
        let ttl = window_ttl(now);
        let key = window_key(user, ws);
        let usage = match self.store.increment(key.as_str()) {
            Ok(u) => u,
            Err(e) => {
                return Err(e);
            },
        };
        if usage == 1 {
            match self.store.set_expiry(key.as_str(), ttl) {
                Ok(u) => u,
                Err(e) => {
                    return Err(e);
                },
            };
        }
        Ok(evaluate(limit, ttl, usage))
    }

    /// Checks whether a request by `user` may proceed now, by the wall
    /// clock. Any status returned is the exact decision for the usage count
    /// the store reported and the moment the clock read; a store failure is
    /// `StoreUnavailable`, never an allow or deny.
    ///
    /// Success is owed wherever no outside outcome decides it: against a
    /// precise, reachable store whose counters for this identity have room,
    /// the call returns `Ok`, and there is an instant — the one the clock
    /// read — for which the status and the counter and expiry updates are
    /// exactly those of `check_at`; against an unreachable precise store the
    /// call fails with the store untouched.
    pub fn check(&mut self, user: &str, extend: bool) -> (r: Result<
        RateLimitStatus,
        StoreUnavailable,
    >)
        requires
            old(self).wf(),
        ensures
            final(self).wf(),
            final(self).request_per_day == old(self).request_per_day,
            old(self).store.precise() ==> final(self).store.precise()
                && final(self).store.up() == old(self).store.up(),
            (match r {
                Ok(st) => exists|now: u64, usage: nat|
                    st == status_of(
                        spec_effective_limit(old(self).request_per_day, extend),
                        spec_window_ttl(now),
                        usage,
                    ),
                Err(e) => e == StoreUnavailable,
            }),
            (old(self).store.precise() && old(self).store.up() && (forall|n: u64|
                #[trigger] count_of(old(self).store.model(), spec_check_key(user@, n))
                    < u64::MAX)) ==> r is Ok,
            (old(self).store.precise() && old(self).store.up() && (forall|n: u64|
                #[trigger] count_of(old(self).store.model(), spec_check_key(user@, n))
                    < u64::MAX)) ==> (exists|now: u64|
                #![trigger spec_check_key(user@, now)]
                ({
                    let key = spec_check_key(user@, now);
                    let prior = count_of(old(self).store.model(), key);
                    &&& r == Ok::<RateLimitStatus, StoreUnavailable>(
                        status_of(
                            spec_effective_limit(old(self).request_per_day, extend),
                            spec_window_ttl(now),
                            prior + 1,
                        ),
                    )
                    &&& final(self).store.model().counts
                        == old(self).store.model().counts.insert(key, prior + 1)
                    &&& (prior == 0 ==> final(self).store.model().ttls
                        == old(self).store.model().ttls.insert(key, spec_window_ttl(now)))
                    &&& (prior >= 1 ==> final(self).store.model().ttls
                        == old(self).store.model().ttls)
                })),
            (old(self).store.precise() && !old(self).store.up()) ==> r == Err::<
                RateLimitStatus,
                StoreUnavailable,
            >(StoreUnavailable) && final(self).store.model() == old(self).store.model(),
    {
        let now = now_epoch_secs();
        let r = self.check_at(user, extend, now);
        proof {
            if old(self).store.precise() && old(self).store.up() && (forall|n: u64|
                #[trigger] count_of(old(self).store.model(), spec_check_key(user@, n))
                    < u64::MAX) {
                assert(count_of(old(self).store.model(), spec_check_key(user@, now))
                    < u64::MAX);
            }
        }
        r
    }
}

} // verus!
