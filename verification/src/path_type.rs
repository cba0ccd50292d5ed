//! The tagged variant naming the structure of a Dubins path.

use vstd::prelude::*;

verus! {

/// The seven possible tags of a planar Dubins path: `UNKNOWN` is the explicit
/// "no solution" sentinel (never a real result), the other six name the
/// segment structure — `L`/`R` a left/right turn of minimum radius, `S` a
/// straight segment.
#[derive(Clone, Copy, Debug, PartialEq, Eq, Structural)]
pub enum DubinsPathType {
    UNKNOWN,
    LSL,
    LSR,
    RSL,
    RSR,
    LRL,
    RLR,
}

/// True of the four curve-straight-curve path types.
pub open spec fn is_curve_straight_curve(path_type: DubinsPathType) -> bool {
    match path_type {
        DubinsPathType::LSL => true,
        DubinsPathType::LSR => true,
        DubinsPathType::RSL => true,
        DubinsPathType::RSR => true,
        _ => false,
    }
}

/// True of the path types whose first segment is a left turn.
pub open spec fn starts_with_left_turn(path_type: DubinsPathType) -> bool {
    match path_type {
        DubinsPathType::LSL => true,
        DubinsPathType::LSR => true,
        DubinsPathType::LRL => true,
        _ => false,
    }
}

/// True of the path types whose first segment is a right turn.
pub open spec fn starts_with_right_turn(path_type: DubinsPathType) -> bool {
    match path_type {
        DubinsPathType::RSL => true,
        DubinsPathType::RSR => true,
        DubinsPathType::RLR => true,
        _ => false,
    }
}

} // verus!
