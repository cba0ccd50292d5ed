//! The flight-path-angle feasibility rule for the vertical Dubins path.

use vstd::prelude::*;

use crate::path_type::is_curve_straight_curve;
use crate::path_type::DubinsPathType;

verus! {

/// The feasibility rule for the vertical half of a coupled 3D path: only a
/// curve-straight-curve vertical path models a bounded climb or descent, so
/// pure-curve types and the `UNKNOWN` sentinel are always infeasible.  A
/// right-turn-first type dives before it climbs, so it is held to the lower
/// flight-angle bound; a left-turn-first type climbs first and is held to the
/// upper bound.
pub open spec fn spec_vertical_feasible(
    path_type: DubinsPathType,
    above_min: bool,
    below_max: bool,
) -> bool {
    match path_type {
        DubinsPathType::UNKNOWN => false,
        DubinsPathType::LRL => false,
        DubinsPathType::RLR => false,
        DubinsPathType::RSL => above_min,
        DubinsPathType::RSR => above_min,
        DubinsPathType::LSL => below_max,
        DubinsPathType::LSR => below_max,
    }
}

/// Decides feasibility of a vertical path from its type and the two bound
/// comparisons.  `above_min` must be the outcome of comparing the initial
/// dive angle against the lower flight-angle bound (`startAngle - a/radius >
/// faMin`), `below_max` the outcome of comparing the initial climb angle
/// against the upper bound (`startAngle + a/radius < faMax`); which of the
/// two the verdict rests on is decided here, by the path type alone.
pub fn vertical_feasible(path_type: DubinsPathType, above_min: bool, below_max: bool) -> (r: bool)
    ensures
        r == spec_vertical_feasible(path_type, above_min, below_max),
{
    match path_type {
        DubinsPathType::UNKNOWN => false,
        DubinsPathType::LRL => false,
        DubinsPathType::RLR => false,
        DubinsPathType::RSL => above_min,
        DubinsPathType::RSR => above_min,
        DubinsPathType::LSL => below_max,
        DubinsPathType::LSR => below_max,
    }
}

/// Only curve-straight-curve vertical paths can ever be feasible for the
/// flight model, whatever the bound comparisons say.
pub proof fn lemma_feasible_is_curve_straight_curve(
    path_type: DubinsPathType,
    above_min: bool,
    below_max: bool,
)
    ensures
        spec_vertical_feasible(path_type, above_min, below_max) ==> is_curve_straight_curve(
            path_type,
        ),
{
}

} // verus!
