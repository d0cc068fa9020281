//! The counter store contract: a shared key-value store with an atomic
//! increment-with-return and a one-shot expiry.
//!
//! Each implementation carries a mathematical model of the store it stands
//! for. An implementation whose model tracks the real contents exactly (an
//! in-process store) says so with `precise()`; one that fronts a remote,
//! concurrently mutated store (the network-backed store) reports
//! `precise() == false`, and the contract then promises nothing about the
//! values that come back — the engine must hold for every outcome.
use vstd::prelude::*;

use crate::status::StoreUnavailable;

verus! {

/// The abstract contents of a counter store: per key, the usage count, and
/// the expiry (in seconds) armed on it, if any.
pub ghost struct StoreModel {
    /// The counter value at each live key; an absent key counts as zero.
    pub counts: Map<Seq<char>, nat>,
    /// The time-to-live each key's one-shot expiry was armed with.
    pub ttls: Map<Seq<char>, u64>,
}

/// The counter value at `key`; zero when the key is absent.
pub open spec fn count_of(m: StoreModel, key: Seq<char>) -> nat {
    if m.counts.dom().contains(key) {
        m.counts[key]
    } else {
        0
    }
}

/// The store after an atomic increment of `key`: the count goes up by one,
/// no expiry changes.
pub open spec fn incremented(m: StoreModel, key: Seq<char>) -> StoreModel {
    StoreModel { counts: m.counts.insert(key, count_of(m, key) + 1), ttls: m.ttls }
}

/// The store after arming a `ttl`-second expiry on `key`: a later call
/// overwrites an earlier one; arming an absent key does nothing.
pub open spec fn armed(m: StoreModel, key: Seq<char>, ttl: u64) -> StoreModel {
    if m.counts.dom().contains(key) {
        StoreModel { counts: m.counts, ttls: m.ttls.insert(key, ttl) }
    } else {
        m
    }
}

/// The three primitive operations the rate limiter needs from the shared
/// store. All correctness under concurrent callers is delegated to the
/// store's own atomic increment; no caller-side locking exists.
pub trait CounterStore: Sized {
    /// The abstract contents this value stands for.
    spec fn model(&self) -> StoreModel;

    /// Whether `model()` tracks the underlying store exactly. A remote store
    /// shared with other writers cannot promise that and answers `false`.
    spec fn precise(&self) -> bool;

    /// Whether the underlying store is reachable (meaningful only for a
    /// precise store, where it decides success).
    spec fn up(&self) -> bool;

    /// Atomically adds one to the counter at `key`, creating it at one if
    /// absent, and returns the post-increment value.
    fn increment(&mut self, key: &str) -> (r: Result<u64, StoreUnavailable>)
        ensures
            old(self).precise() ==> final(self).precise() && final(self).up() == old(
                self,
            ).up(),
            old(self).precise() && old(self).up() && count_of(old(self).model(), key@)
                < u64::MAX ==> r == Ok::<u64, StoreUnavailable>(
                (count_of(old(self).model(), key@) + 1) as u64,
            ) && final(self).model() == incremented(old(self).model(), key@),
            old(self).precise() && !old(self).up() ==> r == Err::<u64, StoreUnavailable>(
                StoreUnavailable,
            ) && final(self).model() == old(self).model(),
    ;

    /// Arms a one-shot expiry of `ttl` seconds on `key`; a later call with a
    /// different ttl overwrites the remaining one.
    fn set_expiry(&mut self, key: &str, ttl: u64) -> (r: Result<(), StoreUnavailable>)
        requires
            1 <= ttl <= 0x7fff_ffff_ffff_ffff,
        ensures
            old(self).precise() ==> final(self).precise() && final(self).up() == old(
                self,
            ).up(),
            old(self).precise() && old(self).up() ==> r == Ok::<(), StoreUnavailable>(())
                && final(self).model() == armed(old(self).model(), key@, ttl),
            old(self).precise() && !old(self).up() ==> r == Err::<(), StoreUnavailable>(
                StoreUnavailable,
            ) && final(self).model() == old(self).model(),
    ;

    /// Liveness probe: succeeds exactly when a precise store is reachable,
    /// and never changes the contents.
    fn ping(&mut self) -> (r: Result<(), StoreUnavailable>)
        ensures
            old(self).precise() ==> final(self).precise() && final(self).up() == old(
                self,
            ).up() && final(self).model() == old(self).model() && (r is Ok <==> old(
                self,
            ).up()),
    ;
}

} // verus!
