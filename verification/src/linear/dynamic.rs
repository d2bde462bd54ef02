//! The derived capability of a vector space.

use crate::general::dynamic::DynamicModule;
use crate::general::two_operators::Field;
use vstd::prelude::*;

verus! {

/// A vector space has a module structure over a field instead of a ring.
pub trait DynamicVectorSpace: DynamicModule<Ring = <Self as DynamicVectorSpace>::Field> {
    /// The field of scalars.
    type Field: Field;
}

} // verus!
