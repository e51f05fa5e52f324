//! Discrete-parameter search shared by the clock resolver and the PWM
//! dead-time computation: minimal-absolute-error selection over an ordered
//! candidate list, and first-tier threshold lookup over an ordered bound
//! list.

use vstd::prelude::*;

verus! {

/// Absolute error between a target quantity and an achievable quantity.
pub open spec fn spec_abs_err(target: u32, achieved: u32) -> int {
    if achieved >= target {
        achieved - target
    } else {
        target - achieved
    }
}

/// Absolute difference of two quantities.
pub fn abs_err(target: u32, achieved: u32) -> (r: u32)
    ensures
        r == spec_abs_err(target, achieved),
{
    if achieved >= target {
        achieved - target
    } else {
        target - achieved
    }
}

/// Index of the candidate whose achievable quantity has minimal absolute
/// error against the target; on ties the earliest candidate wins, so the
/// caller's candidate order encodes its preference.
pub fn resolve_min_error(target: u32, achieved: &Vec<u32>) -> (r: usize)
    requires
        achieved.len() > 0,
    ensures
        r < achieved.len(),
        forall|j: int|
            0 <= j < achieved.len() ==> spec_abs_err(target, achieved[j])
                >= spec_abs_err(target, achieved[r as int]),
        forall|j: int|
            0 <= j < r ==> spec_abs_err(target, achieved[j]) > spec_abs_err(
                target,
                achieved[r as int],
            ),
{
    let mut best: usize = 0;
    let mut best_err: u32 = abs_err(target, achieved[0]);
    let mut i: usize = 1;
    while i < achieved.len() && best_err != 0
        invariant
            achieved.len() > 0,
            best < i <= achieved.len(),
            best_err == spec_abs_err(target, achieved[best as int]),
            forall|j: int|
                0 <= j < i ==> spec_abs_err(target, achieved[j]) >= spec_abs_err(
                    target,
                    achieved[best as int],
                ),
            forall|j: int|
                0 <= j < best ==> spec_abs_err(target, achieved[j]) > spec_abs_err(
                    target,
                    achieved[best as int],
                ),
        decreases achieved.len() - i,
    {
        let e = abs_err(target, achieved[i]);
        if e < best_err {
            best = i;
            best_err = e;
        }
        i = i + 1;
    }
    proof {
        if best_err == 0 {
            assert(forall|j: int|
                0 <= j < achieved.len() ==> spec_abs_err(target, achieved[j]) >= 0);
        }
    }
    best
}

} // verus!
