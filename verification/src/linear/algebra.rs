//! Algebras: vector spaces with a product of vectors.

use super::vector::VectorSpace;
use crate::general::approx_eq::ApproxEq;
use crate::general::dynamic::DynamicGroup;
use crate::general::identity::{neutral, DynamicIdentity, Identity};
use crate::general::one_operator::{op, AbstractMagma, AbstractSemigroup};
use crate::general::operator::{Additive, Multiplicative, Operator};
use vstd::prelude::*;
use vstd::std_specs::cmp::PartialEqSpec;

verus! {

/// The Lie bracket operator, commonly written `[a, b]`.
#[derive(Copy, Clone)]
pub struct LieBracketOp;

impl Operator for LieBracketOp {
    open spec fn token_spec() -> Self {
        LieBracketOp
    }

    proof fn token_is_unique(other: Self) {
    }

    fn operator_token() -> (token: Self) {
        LieBracketOp
    }
}

/// `[a, b]`: the Lie bracket of `a` and `b`.
pub open spec fn bracket<T: AbstractMagma<LieBracketOp>>(a: T, b: T) -> T {
    op::<LieBracketOp, T>(a, b)
}

/// `a + b` in a magma under addition.
pub open spec fn sum<T: AbstractMagma<Additive>>(a: T, b: T) -> T {
    op::<Additive, T>(a, b)
}

/// The zero of a type under addition.
pub open spec fn zero<T: Identity<Additive>>() -> T {
    neutral::<Additive, T>()
}

/// A magma under the Lie bracket. Every such magma has this capability.
pub trait LieBracket: AbstractMagma<LieBracketOp> {
    /// Computes the Lie bracket of `self` and `rhs`.
    fn lie_bracket(&self, rhs: &Self) -> (result: Self)
        ensures
            result == bracket(*self, *rhs),
    {
        self.operate(rhs)
    }
}

impl<T> LieBracket for T where T: AbstractMagma<LieBracketOp> {

}

/// Whether `[a, b] + [b, a]` is zero.
pub open spec fn anti_symmetric_at<T: AbstractMagma<LieBracketOp> + AbstractMagma<Additive> + Identity<Additive>>(
    a: T,
    b: T,
) -> bool {
    sum(bracket(a, b), bracket(b, a)) == zero::<T>()
}

/// `[a, [b, c]] + [b, [c, a]] + [c, [a, b]]`.
pub open spec fn jacobi_sum<T: AbstractMagma<LieBracketOp> + AbstractMagma<Additive>>(
    a: T,
    b: T,
    c: T,
) -> T {
    sum(sum(bracket(a, bracket(b, c)), bracket(b, bracket(c, a))), bracket(c, bracket(a, b)))
}

/// Whether `[a, [b, c]] + [b, [c, a]] + [c, [a, b]]` is zero.
pub open spec fn jacobi_holds_at<T: AbstractMagma<LieBracketOp> + AbstractMagma<Additive> + Identity<Additive>>(
    a: T,
    b: T,
    c: T,
) -> bool {
    jacobi_sum(a, b, c) == zero::<T>()
}

/// A vector space with a product `M` of vectors that distributes over their
/// addition.
pub trait Algebra<M: Operator>: VectorSpace + AbstractMagma<M> {

}

/// An algebra with an identity element under its product.
pub trait UnitalAlgebra<M: Operator>: Algebra<M> + DynamicIdentity<M> {

}

/// An algebra whose product is associative.
pub trait AssociativeAlgebra<M: Operator>: Algebra<M> + AbstractSemigroup<M> {

}

/// An algebra whose product is a Lie bracket: anti-symmetric, and subject to
/// the Jacobi identity.
pub trait LieAlgebra: Algebra<LieBracketOp> + LieBracket {
    /// Checks on two samples that the bracket is anti-symmetric, up to the
    /// tolerance of the type: whether `[a, b] + [b, a]` is accepted as equal
    /// to zero.
    ///
    /// Where the sum is zero, the check holds if the comparison accepts zero
    /// as equal to itself.
    fn anti_symmetric_bracket_rel(a: &Self, b: &Self) -> (holds: bool) where Self: ApproxEq
        ensures
            holds == sum(bracket(*a, *b), bracket(*b, *a)).approx_eq_spec(&zero::<Self>()),
            anti_symmetric_at(*a, *b) && zero::<Self>().approx_eq_spec(&zero::<Self>()) ==> holds,
    {
        let ab = a.lie_bracket(b);
        let ba = b.lie_bracket(a);
        let total = <Self as AbstractMagma<Additive>>::operate(&ab, &ba);
        total.approx_eq(&<Self as Identity<Additive>>::identity())
    }

    /// Checks on two samples that the bracket is anti-symmetric, by `==`:
    /// whether `[a, b] + [b, a] == 0`.
    ///
    /// Where the sum is zero, the check holds if `==` accepts zero as equal
    /// to itself.
    fn anti_symmetric_bracket(a: &Self, b: &Self) -> (holds: bool) where Self: PartialEq
        ensures
            Self::obeys_eq_spec() ==> holds == sum(bracket(*a, *b), bracket(*b, *a)).eq_spec(
                &zero::<Self>(),
            ),
            Self::obeys_eq_spec() && anti_symmetric_at(*a, *b) && zero::<Self>().eq_spec(
                &zero::<Self>(),
            ) ==> holds,
    {
        let ab = a.lie_bracket(b);
        let ba = b.lie_bracket(a);
        let total = <Self as AbstractMagma<Additive>>::operate(&ab, &ba);
        total == <Self as Identity<Additive>>::identity()
    }

    /// Checks on three samples that the bracket meets the Jacobi identity, up
    /// to the tolerance of the type: whether
    /// `[a, [b, c]] + [b, [c, a]] + [c, [a, b]]` is accepted as equal to
    /// zero.
    ///
    /// Where the sum is zero, the check holds if the comparison accepts zero
    /// as equal to itself.
    fn jacobi_identity_bracket(a: &Self, b: &Self, c: &Self) -> (holds: bool) where
        Self: ApproxEq,

        ensures
            holds == jacobi_sum(*a, *b, *c).approx_eq_spec(&zero::<Self>()),
            jacobi_holds_at(*a, *b, *c) && zero::<Self>().approx_eq_spec(&zero::<Self>())
                ==> holds,
    {
        let abc = a.lie_bracket(&b.lie_bracket(c));
        let bca = b.lie_bracket(&c.lie_bracket(a));
        let cab = c.lie_bracket(&a.lie_bracket(b));
        let jacobi = <Self as AbstractMagma<Additive>>::operate(
            &<Self as AbstractMagma<Additive>>::operate(&abc, &bca),
            &cab,
        );
        jacobi.approx_eq(&<Self as Identity<Additive>>::identity())
    }
}

/// A Lie algebra with proofs that its bracket is anti-symmetric and meets
/// the Jacobi identity.
pub trait LawfulLieAlgebra: LieAlgebra {
    /// `[a, b] + [b, a]` is zero.
    proof fn anti_symmetry_law(a: Self, b: Self)
        ensures
            anti_symmetric_at(a, b),
    ;

    /// `[a, [b, c]] + [b, [c, a]] + [c, [a, b]]` is zero.
    proof fn jacobi_law(a: Self, b: Self, c: Self)
        ensures
            jacobi_holds_at(a, b, c),
    ;
}

/// A Lie algebra with an exponential map into a group.
pub trait ExpLieAlgebra: LieAlgebra {
    /// The group that the exponential map reaches.
    type LieGroup: DynamicGroup<Multiplicative>;

    /// The image of `self` under the exponential map.
    spec fn lie_exp_spec(&self) -> Self::LieGroup;

    /// Computes the image of `self` under the exponential map.
    fn lie_exp(&self) -> (image: Self::LieGroup)
        ensures
            image == self.lie_exp_spec(),
    ;
}

} // verus!
