//! A minimal concolic test-input generator.
//!
//! The library re-executes an instrumented target routine under successive
//! concrete inputs, records the branch predicates taken as a symbolic path
//! constraint, asks a constraint solver for assignments that flip the path,
//! and repeats until an iteration budget is exhausted.

pub mod algebra;
pub mod driver;
pub mod expr;
pub mod formula;
pub mod solver;
pub mod target;
pub mod worklist;
