//! Vector spaces.

use crate::general::module::Module;
use crate::general::two_operators::Field;
use vstd::prelude::*;

verus! {

/// A module whose scalars form a field.
pub trait VectorSpace: Module<Ring = <Self as VectorSpace>::Field> {
    /// The field of scalars.
    type Field: Field;
}

} // verus!
