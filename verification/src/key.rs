//! The counter key. Its format is part of the store's external interface and
//! must stay bit-exact: `"ratelimit:" + identity + ":" + window_start`.
use vstd::prelude::*;

use crate::digits::{spec_dec, u64_to_dec};
use crate::window::spec_window_start;

verus! {

use vstd::string::StringExecFns;

/// The key under which the counter for `identity` in the window starting at
/// `window_start` lives.
pub open spec fn spec_window_key(identity: Seq<char>, window_start: u64) -> Seq<char> {
    "ratelimit:"@ + identity + ":"@ + spec_dec(window_start as nat)
}

/// The key a check at epoch second `now` addresses: the identity's counter
/// for the window containing `now`. The quota tier plays no part in it.
pub open spec fn spec_check_key(identity: Seq<char>, now: u64) -> Seq<char> {
    spec_window_key(identity, spec_window_start(now))
}

/// Builds the counter key for `identity` and `window_start`.
pub fn window_key(identity: &str, window_start: u64) -> (k: String)
    ensures
        k@ == spec_window_key(identity@, window_start),
{
    let mut k = "ratelimit:".to_owned();
    k.append(identity);
    k.append(":");
    k.append(u64_to_dec(window_start).as_str());
    proof {
        assert(k@ =~= spec_window_key(identity@, window_start));
    }
    k
}

} // verus!
