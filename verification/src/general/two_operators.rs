//! Structures on two operators: rings and fields.

use super::one_operator::{AbstractGroupAbelian, AbstractMonoid};
use super::operator::{Additive, Multiplicative, Operator, TwoSidedInverse};
use vstd::prelude::*;

verus! {

/// An abelian group under `A` and a monoid under `M`, where `M` distributes
/// over `A`.
pub trait AbstractRing<A: Operator = Additive, M: Operator = Multiplicative>:
    AbstractGroupAbelian<A> + AbstractMonoid<M> {

}

/// A ring whose multiplication is commutative.
pub trait AbstractRingCommutative<A: Operator = Additive, M: Operator = Multiplicative>:
    AbstractRing<A, M> {

}

/// A commutative ring in which every element but zero has a reciprocal.
pub trait AbstractField<A: Operator = Additive, M: Operator = Multiplicative>:
    AbstractRingCommutative<A, M> + TwoSidedInverse<M> {

}

/// A field under addition and multiplication.
pub trait Field: AbstractField<Additive, Multiplicative> {

}

impl<T: AbstractField<Additive, Multiplicative>> Field for T {

}

} // verus!
