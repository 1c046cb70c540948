//! The circuit's failure taxonomy.
//!
//! A shape mismatch between declared tensor dimensions and supplied data
//! is a configuration defect caught while the circuit is built; a witness
//! that breaks a registered constraint (a value outside its declared
//! range, a broken bit decomposition) leaves the circuit unsatisfiable.
//! Neither is retried: every failure must be fixed upstream.

use vstd::prelude::*;

verus! {

#[derive(Clone, Copy, Debug, PartialEq, Eq, Structural)]
pub enum CircuitError {
    /// Declared tensor dimensions disagree with the data supplied for them.
    ShapeMismatch,
    /// A witness value satisfies no assignment of a registered constraint.
    Unsatisfiable,
}

impl CircuitError {
    /// A short description of the failure.
    pub fn describe(&self) -> (s: &'static str)
        ensures
            (*self is ShapeMismatch) ==> s@ == "shape mismatch"@,
            (*self is Unsatisfiable) ==> s@ == "circuit not satisfied"@,
    {
        match self {
            CircuitError::ShapeMismatch => "shape mismatch",
            CircuitError::Unsatisfiable => "circuit not satisfied",
        }
    }
}

} // verus!
