use dubinsrust::feasibility::vertical_feasible;
use dubinsrust::path_type::DubinsPathType;

#[test]
fn pure_curve_and_unknown_never_feasible() {
    for t in [
        DubinsPathType::UNKNOWN,
        DubinsPathType::LRL,
        DubinsPathType::RLR,
    ] {
        for above_min in [false, true] {
            for below_max in [false, true] {
                assert!(!vertical_feasible(t, above_min, below_max));
            }
        }
    }
}

#[test]
fn right_first_held_to_lower_bound() {
    for t in [DubinsPathType::RSL, DubinsPathType::RSR] {
        for below_max in [false, true] {
            assert!(vertical_feasible(t, true, below_max));
            assert!(!vertical_feasible(t, false, below_max));
        }
    }
}

#[test]
fn left_first_held_to_upper_bound() {
    for t in [DubinsPathType::LSL, DubinsPathType::LSR] {
        for above_min in [false, true] {
            assert!(vertical_feasible(t, above_min, true));
            assert!(!vertical_feasible(t, above_min, false));
        }
    }
}

#[test]
fn path_types_compare_by_value() {
    assert_eq!(DubinsPathType::LSR, DubinsPathType::LSR);
    assert_ne!(DubinsPathType::LSR, DubinsPathType::RSL);
    let copy: DubinsPathType = DubinsPathType::RLR;
    assert_eq!(copy, DubinsPathType::RLR);
}
