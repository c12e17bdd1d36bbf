//! Sleeping until a point in time without spinning all the way: coarse naps
//! while more than a coarse nap is left, fine naps for the rest.
//!
//! The library decides how long each nap is; the program around it sleeps
//! and reports how long it has slept so far. All durations are whole
//! nanoseconds.

use vstd::prelude::*;

verus! {

/// Length of a coarse nap: one millisecond.
pub const COARSE_NAP: u64 = 1_000_000;

/// Length of a fine nap: one microsecond.
pub const FINE_NAP: u64 = 1_000;

/// The nap to take once `slept` of `target` has been slept: a coarse one
/// while more than a coarse nap is left, a fine one while anything is left,
/// none after that.
pub open spec fn nap_of(target: nat, slept: nat) -> Option<u64> {
    if slept + COARSE_NAP < target {
        Some(COARSE_NAP)
    } else if slept < target {
        Some(FINE_NAP)
    } else {
        None
    }
}

/// The time slept in all when every nap lasts exactly as long as asked.
pub open spec fn woken_at(target: nat, slept: nat) -> nat
    decreases
            if slept < target {
                target - slept
            } else {
                0
            },
{
    match nap_of(target, slept) {
        Some(nap) => woken_at(target, slept + nap as nat),
        None => slept,
    }
}

/// Says how long to sleep next, or that the sleep is over.
pub fn next_nap(target: u64, slept: u64) -> (nap: Option<u64>)
    ensures
        nap == nap_of(target as nat, slept as nat),
        nap is None <==> slept >= target,
        nap matches Some(n) ==> slept + n < target + FINE_NAP,
{
    if target > COARSE_NAP && slept < target - COARSE_NAP {
        Some(COARSE_NAP)
    } else if slept < target {
        Some(FINE_NAP)
    } else {
        None
    }
}

/// Time only moves on, so once the naps are fine they stay fine: no coarse
/// nap follows a fine one.
pub proof fn law_fine_naps_stay_fine(target: nat, slept: nat, later: nat)
    requires
        slept <= later,
        nap_of(target, slept) != Some(COARSE_NAP),
    ensures
        nap_of(target, later) != Some(COARSE_NAP),
{
}

/// Where every nap lasts exactly as long as asked, the sleep ends at the
/// target or after it, and less than one fine nap late.
pub proof fn law_exact_naps_overshoot_little(target: nat, slept: nat)
    requires
        slept <= target,
    ensures
        target <= woken_at(target, slept) < target + FINE_NAP,
    decreases target - slept,
{
    match nap_of(target, slept) {
        Some(nap) => {
            if slept + nap as nat <= target {
                law_exact_naps_overshoot_little(target, slept + nap as nat);
            } else {
                assert(nap_of(target, slept + nap as nat) is None);
            }
        },
        None => {},
    }
}

} // verus!
