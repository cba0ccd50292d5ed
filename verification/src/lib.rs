//! Decision logic for a Dubins shortest-path solver with a spatial
//! ("airplane") extension.
//!
//! The closed-form trigonometric solvers work on IEEE-754 doubles and live
//! with the caller; this crate holds everything about the solver that is
//! discrete and proves it: the path-type taxonomy, the candidate-selection
//! rules (lowest-cost candidate across the six path types, last verified
//! candidate within one type), the flight-path-angle feasibility dispatch,
//! the iteration-capped control of the coupling-ratio search, and the error
//! taxonomy.

pub mod errors;
pub mod feasibility;
pub mod path_type;
pub mod search;
pub mod selection;
