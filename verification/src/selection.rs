//! Candidate-selection rules of the planar solver.
//!
//! Two rules are pinned down here.  Across the six path types the facade
//! keeps the cheapest result, with ties going to the earliest in the fixed
//! solver order (the behaviour of a stable ascending sort followed by taking
//! the head).  Within one path type, every closed-form candidate that
//! reproduces the target pose overwrites the result, so the last verified
//! candidate in enumeration order wins — a defined behaviour of the solver,
//! deliberately not a cost-minimizing pick among same-type candidates.

use vstd::prelude::*;

verus! {

/// Index of the cheapest of the six candidate results, earliest first on
/// ties.  Costs are handed in as order-preserving keys: total path lengths
/// are non-negative doubles (with positive infinity marking an infeasible
/// type), and those compare exactly like their IEEE-754 bit patterns read as
/// unsigned integers.
pub fn min_cost_index(costs: &Vec<u64>) -> (r: Option<usize>)
    ensures
        match r {
            Some(i) => {
                &&& i < costs.len()
                &&& forall|j: int| 0 <= j < costs@.len() ==> #[trigger] costs@[j] >= costs@[i as int]
                &&& forall|j: int| 0 <= j < i ==> #[trigger] costs@[j] > costs@[i as int]
            },
            None => costs.len() == 0,
        },
{
    if costs.len() == 0 {
        return None;
    }
    let mut best: usize = 0;
    let mut k: usize = 1;
    while k < costs.len()
        invariant
            best < k <= costs.len(),
            forall|j: int| 0 <= j < k ==> #[trigger] costs@[j] >= costs@[best as int],
            forall|j: int| 0 <= j < best ==> #[trigger] costs@[j] > costs@[best as int],
        decreases costs.len() - k,
    {
        if costs[k] < costs[best] {
            best = k;
        }
        k = k + 1;
    }
    Some(best)
}

/// Index of the candidate a path-type solver keeps: the last one, in
/// enumeration order, that reproduced the target pose.  `None` exactly when
/// no candidate verified, in which case the path type stays infeasible.
pub fn last_verified_index(verified: &Vec<bool>) -> (r: Option<usize>)
    ensures
        match r {
            Some(i) => {
                &&& i < verified.len()
                &&& verified@[i as int]
                &&& forall|j: int| i < j < verified@.len() ==> !verified@[j]
            },
            None => forall|j: int| 0 <= j < verified@.len() ==> !verified@[j],
        },
{
    let mut r: Option<usize> = None;
    let mut k: usize = 0;
    while k < verified.len()
        invariant
            k <= verified.len(),
            match r {
                Some(i) => {
                    &&& i < k
                    &&& verified@[i as int]
                    &&& forall|j: int| i < j < k ==> !verified@[j]
                },
                None => forall|j: int| 0 <= j < k ==> !verified@[j],
            },
        decreases verified.len() - k,
    {
        if verified[k] {
            r = Some(k);
        }
        k = k + 1;
    }
    r
}

} // verus!
