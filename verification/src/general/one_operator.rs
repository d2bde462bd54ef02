//! Structures on one operator, from magma to abelian group, and what their
//! laws say of given samples.
//!
//! A structure is a capability: a type declares it and is taken at its word.
//! The laws are stated here as predicates on samples. A type that proves
//! them has the traits of [`super::lawful`].

use super::identity::{neutral_of, DynamicIdentity, Identity};
use super::operator::{inverse, Operator, TwoSidedInverse};
use vstd::prelude::*;

verus! {

/// A set with a closed binary operation.
pub trait AbstractMagma<O: Operator>: Sized + Clone {
    /// The result of the operation on `self` and `right`.
    spec fn operate_spec(&self, right: &Self) -> Self;

    /// Performs the operation.
    fn operate(&self, right: &Self) -> (result: Self)
        ensures
            result == self.operate_spec(right),
    ;
}

/// `a ∘ b` under the operator `O`.
pub open spec fn op<O: Operator, T: AbstractMagma<O>>(a: T, b: T) -> T {
    a.operate_spec(&b)
}

/// Whether operating with `b` and with the inverse of `b`, in either order
/// and on either side, gives `a` back.
pub open spec fn divides_at<O: Operator, T: AbstractMagma<O> + TwoSidedInverse<O>>(
    a: T,
    b: T,
) -> bool {
    &&& op::<O, T>(op::<O, T>(a, inverse::<O, T>(b)), b) == a
    &&& op::<O, T>(op::<O, T>(a, b), inverse::<O, T>(b)) == a
    &&& op::<O, T>(inverse::<O, T>(b), op::<O, T>(b, a)) == a
    &&& op::<O, T>(b, op::<O, T>(inverse::<O, T>(b), a)) == a
}

/// Whether `(a ∘ b) ∘ c` equals `a ∘ (b ∘ c)`.
pub open spec fn associates_at<O: Operator, T: AbstractMagma<O>>(a: T, b: T, c: T) -> bool {
    op::<O, T>(op::<O, T>(a, b), c) == op::<O, T>(a, op::<O, T>(b, c))
}

/// Whether operating on `a` with the identity element assigned to it, on
/// either side, gives `a` back.
pub open spec fn identity_is_neutral_at<O: Operator, T: AbstractMagma<O> + DynamicIdentity<O>>(
    a: T,
) -> bool {
    &&& op::<O, T>(a, neutral_of::<O, T>(a)) == a
    &&& op::<O, T>(neutral_of::<O, T>(a), a) == a
}

/// Whether `a ∘ b` equals `b ∘ a`.
pub open spec fn commutes_at<O: Operator, T: AbstractMagma<O>>(a: T, b: T) -> bool {
    op::<O, T>(a, b) == op::<O, T>(b, a)
}

/// A magma in which division is always possible: operating with an element
/// is undone by operating with its inverse, on either side.
pub trait AbstractQuasigroup<O: Operator>: AbstractMagma<O> + TwoSidedInverse<O> {

}

/// A magma whose operation is associative.
pub trait AbstractSemigroup<O: Operator>: AbstractMagma<O> {

}

/// A quasigroup with an identity element.
pub trait AbstractLoop<O: Operator>: AbstractQuasigroup<O> + Identity<O> {

}

/// A semigroup with an identity element.
pub trait AbstractMonoid<O: Operator>: AbstractSemigroup<O> + Identity<O> {

}

/// A loop that is also a monoid: an associative operation with an identity
/// element and inverses.
pub trait AbstractGroup<O: Operator>: AbstractLoop<O> + AbstractMonoid<O> {

}

/// A group whose operation is commutative.
pub trait AbstractGroupAbelian<O: Operator>: AbstractGroup<O> {

}

} // verus!
