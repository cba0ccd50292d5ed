use dubinsrust::selection::last_verified_index;
use dubinsrust::selection::min_cost_index;

#[test]
fn min_cost_of_nothing() {
    let costs: Vec<u64> = vec![];
    assert_eq!(min_cost_index(&costs), None);
}

#[test]
fn min_cost_single() {
    let costs: Vec<u64> = vec![17];
    assert_eq!(min_cost_index(&costs), Some(0));
}

#[test]
fn min_cost_picks_minimum() {
    let costs: Vec<u64> = vec![9, 4, 12, 3, 8, 5];
    assert_eq!(min_cost_index(&costs), Some(3));
}

#[test]
fn min_cost_tie_goes_to_earliest() {
    let costs: Vec<u64> = vec![5, 3, 3, 7];
    assert_eq!(min_cost_index(&costs), Some(1));
}

#[test]
fn min_cost_on_double_bit_keys() {
    // Path costs are non-negative doubles (infinity marking an infeasible
    // type); their raw bit patterns order the same way the doubles do.
    let costs: Vec<u64> = vec![
        3.5f64.to_bits(),
        f64::INFINITY.to_bits(),
        2.25f64.to_bits(),
        2.25f64.to_bits(),
    ];
    assert_eq!(min_cost_index(&costs), Some(2));
}

#[test]
fn min_cost_all_infeasible() {
    // Every path type infeasible: the selected key is still infinity, which
    // is what the facade turns into its failure.
    let costs: Vec<u64> = vec![f64::INFINITY.to_bits(); 6];
    assert_eq!(min_cost_index(&costs), Some(0));
    assert!(f64::from_bits(costs[0]).is_infinite());
}

#[test]
fn last_verified_none_passing() {
    let verified: Vec<bool> = vec![false, false, false, false];
    assert_eq!(last_verified_index(&verified), None);
}

#[test]
fn last_verified_of_nothing() {
    let verified: Vec<bool> = vec![];
    assert_eq!(last_verified_index(&verified), None);
}

#[test]
fn last_verified_keeps_last() {
    let verified: Vec<bool> = vec![true, false, true, false];
    assert_eq!(last_verified_index(&verified), Some(2));
}

#[test]
fn last_verified_single_candidate() {
    let verified: Vec<bool> = vec![false, true];
    assert_eq!(last_verified_index(&verified), Some(1));
}
