//! Modules: abelian groups whose elements can be scaled by the elements of a
//! commutative ring.

use super::one_operator::AbstractGroupAbelian;
use super::operator::{Additive, Multiplicative, Operator};
use super::two_operators::AbstractRingCommutative;
use std::ops::Mul;
use vstd::prelude::*;

verus! {

/// An abelian group under `OpGroup` with a scaling by the elements of a
/// commutative ring under `OpAdd` and `OpMul`.
pub trait AbstractModule<
    OpGroup: Operator = Additive,
    OpAdd: Operator = Additive,
    OpMul: Operator = Multiplicative,
>: AbstractGroupAbelian<OpGroup> {
    /// The ring of scalars.
    type AbstractRing: AbstractRingCommutative<OpAdd, OpMul>;

    /// `self` scaled by `r`.
    spec fn multiply_by_spec(&self, r: Self::AbstractRing) -> Self;

    /// Scales `self` by `r`.
    fn multiply_by(&self, r: Self::AbstractRing) -> (scaled: Self)
        ensures
            scaled == self.multiply_by_spec(r),
    ;
}

/// A type whose values multiply with a `Right` to a value of the type: `*`
/// stays within it.
pub trait ClosedMul<Right = Self>: Sized + Mul<Right, Output = Self> {

}

impl<T, Right> ClosedMul<Right> for T where T: Mul<Right, Output = T> {

}

/// A module under addition over a ring under addition and multiplication,
/// scaled by `*` as well.
pub trait Module: AbstractModule<
    Additive,
    Additive,
    Multiplicative,
    AbstractRing = <Self as Module>::Ring,
> + ClosedMul<<Self as Module>::Ring> {
    /// The ring of scalars.
    type Ring: AbstractRingCommutative<Additive, Multiplicative>;
}

} // verus!
