//! Maps that are claimed to preserve the structure of their domain, and the
//! predicates that test the claim on given samples.

use super::composition::Composite;
use super::morphism::MapOwned;
use crate::general::approx_eq::ApproxEq;
use crate::general::dynamic::{
    DynamicAbstractModule, DynamicGroup, DynamicModule, DynamicMonoid, DynamicRing,
};
use crate::general::exact::ExactEq;
use crate::general::identity::{neutral, Id, Identity};
use crate::general::lawful::{inverse_law, LawfulGroup};
use crate::general::one_operator::{associates_at, op, AbstractMagma, AbstractSemigroup};
use crate::general::operator::{inverse, Additive, Multiplicative, Operator};
use crate::linear::dynamic::DynamicVectorSpace;
use vstd::prelude::*;

verus! {

/// A map from a magma under `O1` to a magma under `O2`.
pub trait MagmaHomomorphism<
    O1: Operator,
    O2: Operator,
    M1: AbstractMagma<O1>,
    M2: AbstractMagma<O2>,
>: MapOwned<M1, M2> {
    /// Checks whether the map preserves the operator on the two samples:
    /// whether the image of `a ∘ b` is accepted as equal to the image of `a`
    /// operated with the image of `b`.
    fn prop_preserves_operator(&self, a: M1, b: M1) -> (holds: bool) where M2: ApproxEq
        ensures
            holds == self.map_spec(op::<O1, M1>(a, b)).approx_eq_spec(
                &op::<O2, M2>(self.map_spec(a), self.map_spec(b)),
            ),
    {
        let ab = a.operate(&b);
        let fab = self.map(ab);
        let fafb = self.map(a).operate(&self.map(b));
        fab.approx_eq(&fafb)
    }
}

/// A map from a semigroup under `O1` to a semigroup under `O2`.
pub trait SemigroupHomomorphism<
    O1: Operator,
    O2: Operator,
    G1: AbstractSemigroup<O1>,
    G2: AbstractSemigroup<O2>,
>: MagmaHomomorphism<O1, O2, G1, G2> {
    /// Checks whether the map preserves associativity on the three samples:
    /// whether the image of `a ∘ (b ∘ c)` is accepted as equal to the image
    /// of `(a ∘ b) ∘ c`.
    ///
    /// Where the operator of the domain associates on the samples, the check
    /// holds if the comparison accepts the image as equal to itself.
    fn prop_preserves_associative_operator(&self, a: G1, b: G1, c: G1) -> (holds: bool) where
        G2: ApproxEq,

        ensures
            holds == self.map_spec(op::<O1, G1>(a, op::<O1, G1>(b, c))).approx_eq_spec(
                &self.map_spec(op::<O1, G1>(op::<O1, G1>(a, b), c)),
            ),
            associates_at::<O1, G1>(a, b, c) && self.map_spec(
                op::<O1, G1>(a, op::<O1, G1>(b, c)),
            ).approx_eq_spec(&self.map_spec(op::<O1, G1>(a, op::<O1, G1>(b, c)))) ==> holds,
    {
        let a_op_bc = a.operate(&b.operate(&c));
        let ab_op_c = a.operate(&b).operate(&c);
        let f_a_op_bc = self.map(a_op_bc);
        let f_ab_op_c = self.map(ab_op_c);
        f_a_op_bc.approx_eq(&f_ab_op_c)
    }
}

/// A map from a monoid under `O1` to a monoid under `O2`.
pub trait MonoidHomomorphism<
    O1: Operator,
    O2: Operator,
    G1: DynamicMonoid<O1>,
    G2: DynamicMonoid<O2>,
>: SemigroupHomomorphism<O1, O2, G1, G2> {
    /// Checks whether the map preserves the identity element: whether the
    /// image of the identity element of `G1` is accepted as equal to the
    /// identity element of `G2`.
    fn prop_preserves_identity(&self) -> (holds: bool) where
        G1: Identity<O1>,
        G2: ApproxEq + Identity<O2>,

        ensures
            holds == self.map_spec(neutral::<O1, G1>()).approx_eq_spec(&neutral::<O2, G2>()),
    {
        let id1 = <G1 as Identity<O1>>::identity();
        let id2 = <G2 as Identity<O2>>::identity();
        self.map(id1).approx_eq(&id2)
    }
}

/// A map from a group under `O1` to a group under `O2`. It adds no check of
/// its own: where the operator is preserved and the two groups prove their
/// laws, the map preserves the identity element and the inverses.
pub trait GroupHomomorphism<
    O1: Operator,
    O2: Operator,
    G1: DynamicGroup<O1>,
    G2: DynamicGroup<O2>,
>: MonoidHomomorphism<O1, O2, G1, G2> {

}

/// Whether the map sends the result of the operation on any two values to
/// the result of the operation on their images.
pub open spec fn preserves_operator<
    O1: Operator,
    O2: Operator,
    M1: AbstractMagma<O1>,
    M2: AbstractMagma<O2>,
    F: MapOwned<M1, M2>,
>(f: F) -> bool {
    forall|a: M1, b: M1| #[trigger]
        f.map_spec(op::<O1, M1>(a, b)) == op::<O2, M2>(f.map_spec(a), f.map_spec(b))
}

/// A map between groups that preserves the operator sends the identity
/// element to the identity element.
pub proof fn operator_preservation_gives_identity<
    O1: Operator,
    O2: Operator,
    G1: LawfulGroup<O1>,
    G2: LawfulGroup<O2>,
    F: MapOwned<G1, G2>,
>(f: F)
    requires
        preserves_operator::<O1, O2, G1, G2, F>(f),
    ensures
        f.map_spec(neutral::<O1, G1>()) == neutral::<O2, G2>(),
{
    let e = neutral::<O1, G1>();
    let x = f.map_spec(e);
    G1::identity_law(e);
    assert(f.map_spec(op::<O1, G1>(e, e)) == op::<O2, G2>(x, x));
    G2::division_law(x, x);
    inverse_law::<O2, G2>(x);
}

/// A map between groups that preserves the operator sends the inverse of a
/// value to the inverse of its image.
pub proof fn operator_preservation_gives_inverses<
    O1: Operator,
    O2: Operator,
    G1: LawfulGroup<O1>,
    G2: LawfulGroup<O2>,
    F: MapOwned<G1, G2>,
>(f: F, a: G1)
    requires
        preserves_operator::<O1, O2, G1, G2, F>(f),
    ensures
        f.map_spec(inverse::<O1, G1>(a)) == inverse::<O2, G2>(f.map_spec(a)),
{
    let x = f.map_spec(inverse::<O1, G1>(a));
    let y = f.map_spec(a);
    inverse_law::<O1, G1>(a);
    operator_preservation_gives_identity::<O1, O2, G1, G2, F>(f);
    assert(f.map_spec(op::<O1, G1>(inverse::<O1, G1>(a), a)) == op::<O2, G2>(x, y));
    G2::division_law(x, y);
    G2::identity_law(inverse::<O2, G2>(y));
}

/// A map between rings: a group homomorphism under the additions and a
/// monoid homomorphism under the multiplications.
pub trait RingHomomorphism<
    A1: Operator,
    M1: Operator,
    A2: Operator,
    M2: Operator,
    R1: DynamicRing<A1, M1>,
    R2: DynamicRing<A2, M2>,
>: GroupHomomorphism<A1, A2, R1, R2> + MonoidHomomorphism<M1, M2, R1, R2> {

}

/// A map between modules. The scalars of the domain convert to the scalars
/// of the codomain.
pub trait AbstractModuleHomomorphism<
    A1: Operator,
    A2: Operator,
    RA: Operator,
    RM: Operator,
    G1: DynamicAbstractModule<A1, RA, RM>,
    G2: DynamicAbstractModule<A2, RA, RM>,
>: GroupHomomorphism<A1, A2, G1, G2> where G2::AbstractRing: From<G1::AbstractRing> {

}

/// A map between modules under addition. The scalars of the domain convert
/// to the scalars of the codomain.
pub trait ModuleHomomorphism<G1: DynamicModule, G2: DynamicModule>: AbstractModuleHomomorphism<
    Additive,
    Additive,
    Additive,
    Multiplicative,
    G1,
    G2,
> where G2::Ring: From<G1::Ring> {

}

impl<T, G1, G2> ModuleHomomorphism<G1, G2> for T where
    T: AbstractModuleHomomorphism<Additive, Additive, Additive, Multiplicative, G1, G2>,
    G1: DynamicModule,
    G2: DynamicModule,
    G2::Ring: From<G1::Ring>,
 {

}

/// A map between vector spaces: a linear operator.
pub trait LinearHomomorphism<
    V1: DynamicVectorSpace,
    V2: DynamicVectorSpace,
>: AbstractModuleHomomorphism<Additive, Additive, Additive, Multiplicative, V1, V2> where
    V2::Field: From<V1::Field>,
 {

}

/// The identity self-map preserves every structure of its carrier.
impl<O: Operator, M: AbstractMagma<O> + ExactEq> MagmaHomomorphism<O, O, M, M> for Id<
    Composite<M>,
> {

}

impl<O: Operator, G: AbstractSemigroup<O> + ExactEq> SemigroupHomomorphism<O, O, G, G> for Id<
    Composite<G>,
> {

}

impl<O: Operator, G: DynamicMonoid<O> + ExactEq> MonoidHomomorphism<O, O, G, G> for Id<
    Composite<G>,
> {

}

impl<O: Operator, G: DynamicGroup<O> + ExactEq> GroupHomomorphism<O, O, G, G> for Id<
    Composite<G>,
> {

}

impl<A: Operator, M: Operator, R: DynamicRing<A, M> + ExactEq> RingHomomorphism<
    A,
    M,
    A,
    M,
    R,
    R,
> for Id<Composite<R>> {

}

impl<
    A: Operator,
    RA: Operator,
    RM: Operator,
    G: DynamicAbstractModule<A, RA, RM> + ExactEq,
> AbstractModuleHomomorphism<A, A, RA, RM, G, G> for Id<Composite<G>> {

}

impl<V: DynamicVectorSpace + ExactEq> LinearHomomorphism<V, V> for Id<Composite<V>> {

}

} // verus!
