//! The wall clock. Nothing can be promised of what it reads; every
//! window-dependent guarantee is stated over the instant handed to
//! `check_at`.
use vstd::prelude::*;

use std::time::{SystemTime, UNIX_EPOCH};

verus! {

/// Relies on std's SystemTime::now and duration_since: the wall clock's
/// seconds since the Unix epoch, or zero should the clock read before it.
#[verifier::external_body]
pub fn now_epoch_secs() -> u64 {
    match SystemTime::now().duration_since(UNIX_EPOCH) {
        Ok(d) => d.as_secs(),
        Err(_) => 0,
    }
}

} // verus!
