//! Equality up to a tolerance.

use vstd::prelude::*;

verus! {

/// A type with a comparison that accepts values within a tolerance of each
/// other. The tolerance belongs to the type: no law is asked of the relation,
/// which need be neither transitive nor, where a type has values that equal
/// nothing, reflexive.
pub trait ApproxEq {
    /// Whether `self` and `other` are equal up to the tolerance.
    spec fn approx_eq_spec(&self, other: &Self) -> bool;

    /// Compares `self` and `other` up to the tolerance.
    fn approx_eq(&self, other: &Self) -> (equal: bool)
        ensures
            equal == self.approx_eq_spec(other),
    ;
}

} // verus!
