//! The error taxonomy of the solver.

use vstd::prelude::*;

verus! {

/// The two terminal failures of the solver.  `NoFeasiblePath` means all six
/// planar candidates were infeasible for the given poses and radius, a
/// geometric impossibility under the model; `SearchNotConverged` means the
/// coupling-ratio search exhausted its iteration cap, a search-quality
/// failure, kept distinct from the geometric one.
#[derive(Clone, Copy, Debug, PartialEq, Eq, Structural)]
pub enum SolveError {
    NoFeasiblePath,
    SearchNotConverged,
}

impl SolveError {
    /// The caller-facing message of each failure.
    pub fn message(&self) -> (r: &'static str)
        ensures
            *self is NoFeasiblePath ==> r@ == "no valid path"@,
            *self is SearchNotConverged ==> r@ == "couldn't find valid path"@,
    {
        match self {
            SolveError::NoFeasiblePath => "no valid path",
            SolveError::SearchNotConverged => "couldn't find valid path",
        }
    }
}

} // verus!
