//! The capabilities that every structure receives without further
//! declaration, and the predicates that test their laws on given samples.

use super::approx_eq::ApproxEq;
use super::identity::{neutral_of, DynamicIdentity};
use super::module::{AbstractModule, ClosedMul, Module};
use super::one_operator::{
    commutes_at, identity_is_neutral_at, op, AbstractGroup, AbstractGroupAbelian, AbstractLoop,
    AbstractMonoid, AbstractQuasigroup, AbstractSemigroup,
};
use super::operator::{Additive, Multiplicative, Operator};
use super::two_operators::{AbstractRing, AbstractRingCommutative};
use vstd::prelude::*;
use vstd::std_specs::cmp::PartialEqSpec;

verus! {

/// A quasigroup that assigns an identity element to each of its values.
pub trait DynamicLoop<O: Operator>: AbstractQuasigroup<O> + DynamicIdentity<O> {

}

impl<O: Operator, T: AbstractLoop<O>> DynamicLoop<O> for T {

}

/// A semigroup that assigns to each element `a` an identity element `e` such
/// that `a ∘ e = e ∘ a = a`.
pub trait DynamicMonoid<O: Operator>: AbstractSemigroup<O> + DynamicIdentity<O> {
    /// Checks whether operating on the sample with its identity element is a
    /// no-op on both sides, up to the tolerance of the type: whether `a ∘ e`
    /// and `e ∘ a` are both accepted as equal to `a`.
    ///
    /// Where the identity element is neutral at the sample, the check holds
    /// if the comparison accepts the sample as equal to itself.
    fn prop_operating_identity_element_is_noop_approx(args: (Self,)) -> (holds: bool) where
        Self: ApproxEq,

        ensures
            holds == (op::<O, Self>(args.0, neutral_of::<O, Self>(args.0)).approx_eq_spec(&args.0)
                && op::<O, Self>(neutral_of::<O, Self>(args.0), args.0).approx_eq_spec(&args.0)),
            identity_is_neutral_at::<O, Self>(args.0) && args.0.approx_eq_spec(&args.0) ==> holds,
    {
        let (a,) = args;
        let id = a.identity();
        a.operate(&id).approx_eq(&a) && id.operate(&a).approx_eq(&a)
    }

    /// Checks whether operating on the sample with its identity element is a
    /// no-op on both sides, by `==`: whether `a ∘ e == a` and `e ∘ a == a`.
    ///
    /// Where the identity element is neutral at the sample, the check holds
    /// if `==` accepts the sample as equal to itself.
    fn prop_operating_identity_element_is_noop(args: (Self,)) -> (holds: bool) where Self: Eq
        ensures
            Self::obeys_eq_spec() ==> holds == (op::<O, Self>(
                args.0,
                neutral_of::<O, Self>(args.0),
            ).eq_spec(&args.0) && op::<O, Self>(neutral_of::<O, Self>(args.0), args.0).eq_spec(
                &args.0,
            )),
            Self::obeys_eq_spec() && identity_is_neutral_at::<O, Self>(args.0) && args.0.eq_spec(
                &args.0,
            ) ==> holds,
    {
        let (a,) = args;
        let id = a.identity();
        a.operate(&id) == a && id.operate(&a) == a
    }
}

impl<O: Operator, T: AbstractMonoid<O>> DynamicMonoid<O> for T {

}

/// A loop and a monoid at once, with the identity element assigned to each
/// value.
pub trait DynamicGroup<O: Operator>: DynamicLoop<O> + DynamicMonoid<O> {

}

impl<O: Operator, T: AbstractGroup<O>> DynamicGroup<O> for T {

}

/// A group whose operation is commutative.
pub trait DynamicGroupAbelian<O: Operator>: DynamicGroup<O> {
    /// Checks whether the operator commutes on the two samples, up to the
    /// tolerance of the type: whether `a ∘ b` is accepted as equal to `b ∘ a`.
    ///
    /// Where the operator commutes on the samples, the check holds if the
    /// comparison accepts `a ∘ b` as equal to itself.
    fn prop_is_commutative_approx(args: (Self, Self)) -> (holds: bool) where Self: ApproxEq
        ensures
            holds == op::<O, Self>(args.0, args.1).approx_eq_spec(&op::<O, Self>(args.1, args.0)),
            commutes_at::<O, Self>(args.0, args.1) && op::<O, Self>(args.0, args.1).approx_eq_spec(
                &op::<O, Self>(args.0, args.1),
            ) ==> holds,
    {
        let (a, b) = args;
        a.operate(&b).approx_eq(&b.operate(&a))
    }

    /// Checks whether the operator commutes on the two samples, by `==`:
    /// whether `a ∘ b == b ∘ a`.
    ///
    /// Where the operator commutes on the samples, the check holds if `==`
    /// accepts `a ∘ b` as equal to itself.
    fn prop_is_commutative(args: (Self, Self)) -> (holds: bool) where Self: Eq
        ensures
            Self::obeys_eq_spec() ==> holds == op::<O, Self>(args.0, args.1).eq_spec(
                &op::<O, Self>(args.1, args.0),
            ),
            Self::obeys_eq_spec() && commutes_at::<O, Self>(args.0, args.1) && op::<O, Self>(
                args.0,
                args.1,
            ).eq_spec(&op::<O, Self>(args.0, args.1)) ==> holds,
    {
        let (a, b) = args;
        a.operate(&b) == b.operate(&a)
    }
}

impl<O: Operator, T: AbstractGroupAbelian<O>> DynamicGroupAbelian<O> for T {

}

/// An abelian group under `A` that is a monoid under `M`.
pub trait DynamicRing<A: Operator = Additive, M: Operator = Multiplicative>:
    DynamicGroupAbelian<A> + DynamicMonoid<M> {

}

impl<A: Operator, M: Operator, T: AbstractRing<A, M>> DynamicRing<A, M> for T {

}

/// A ring whose multiplication is commutative.
pub trait DynamicRingCommutative<A: Operator = Additive, M: Operator = Multiplicative>:
    DynamicRing<A, M> {

}

impl<A: Operator, M: Operator, T: AbstractRingCommutative<A, M>> DynamicRingCommutative<A, M> for T {

}

/// An abelian group under `OpGroup` whose elements can be scaled by the
/// elements of a commutative ring under `OpAdd` and `OpMul`.
pub trait DynamicAbstractModule<
    OpGroup: Operator = Additive,
    OpAdd: Operator = Additive,
    OpMul: Operator = Multiplicative,
>: DynamicGroupAbelian<OpGroup> {
    /// The ring of scalars.
    type AbstractRing: AbstractRingCommutative<OpAdd, OpMul>;

    /// `self` scaled by `r`.
    spec fn multiply_by_spec(&self, r: Self::AbstractRing) -> Self;

    /// Scales `self` by `r`. Every scalar is accepted.
    fn multiply_by(&self, r: Self::AbstractRing) -> (scaled: Self)
        ensures
            scaled == self.multiply_by_spec(r),
    ;
}

impl<OpGroup: Operator, OpAdd: Operator, OpMul: Operator, T> DynamicAbstractModule<
    OpGroup,
    OpAdd,
    OpMul,
> for T where T: AbstractModule<OpGroup, OpAdd, OpMul> {
    type AbstractRing = <T as AbstractModule<OpGroup, OpAdd, OpMul>>::AbstractRing;

    open spec fn multiply_by_spec(&self, r: Self::AbstractRing) -> Self {
        <Self as AbstractModule<OpGroup, OpAdd, OpMul>>::multiply_by_spec(self, r)
    }

    fn multiply_by(&self, r: Self::AbstractRing) -> (scaled: Self) {
        <Self as AbstractModule<OpGroup, OpAdd, OpMul>>::multiply_by(self, r)
    }
}

/// A module under addition over a ring under addition and multiplication.
pub trait DynamicModule: DynamicAbstractModule<
    Additive,
    Additive,
    Multiplicative,
    AbstractRing = <Self as DynamicModule>::Ring,
> + DynamicGroupAbelian<Additive> + ClosedMul<<Self as DynamicModule>::Ring> {
    /// The ring of scalars.
    type Ring: AbstractRingCommutative<Additive, Multiplicative>;
}

impl<T: Module> DynamicModule for T {
    type Ring = <T as Module>::Ring;
}

} // verus!
