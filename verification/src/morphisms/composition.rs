//! Composition of morphisms, the operator that stands for the composition of
//! the self-maps of one type, and its identity element.

use super::morphism::{MapOwned, MapRef, MapTo, Morphism};
use crate::general::exact::{ExactEq, ExactValue};
use crate::general::identity::Id;
use crate::general::operator::Operator;
use std::marker::PhantomData;
use vstd::prelude::*;

verus! {

/// Whether `composite` relates `s1` to `s3` exactly when `first` relates `s1`
/// to some `s2` that `second` relates to `s3`: whether it is `first` followed
/// by `second`.
pub open spec fn composes<
    S1,
    S2,
    S3,
    M1: Morphism<S1, S2>,
    M2: Morphism<S2, S3>,
    M3: Morphism<S1, S3>,
>(first: M1, second: M2, composite: M3) -> bool {
    forall|s1: S1, s3: S3| #[trigger]
        composite.arrow_spec(s1, s3) <==> exists|s2: S2| #[trigger]
            first.arrow_spec(s1, s2) && second.arrow_spec(s2, s3)
}

/// Whether two morphisms relate the same values.
pub open spec fn same_arrows<S1, S2, M: Morphism<S1, S2>, N: Morphism<S1, S2>>(m: M, n: N) -> bool {
    forall|s1: S1, s2: S2| #[trigger] m.arrow_spec(s1, s2) == n.arrow_spec(s1, s2)
}

/// A morphism from `S1` to `S3` that can be made of a morphism from `S1` to
/// `S2` followed by one from `S2` to `S3`.
pub trait FromComposition<S1, S2, S3, M1: Morphism<S1, S2>, M2: Morphism<S2, S3>>: Morphism<
    S1,
    S3,
> + Sized {
    /// The morphism `m1` followed by `m2`.
    spec fn composition_spec(m1: M1, m2: M2) -> Self;

    /// Makes the morphism `m1` followed by `m2`.
    fn from_composition(m1: &M1, m2: &M2) -> (composite: Self)
        ensures
            composite == Self::composition_spec(*m1, *m2),
            composes(*m1, *m2, composite),
    ;
}

/// A morphism from `S` to itself that can be made of two others of one type.
/// Every such type can be made by the general composition as well, which
/// for it is this one.
pub trait FromEndoComposition<S, M: Morphism<S, S>>: FromComposition<S, S, S, M, M> {
    /// The morphism `m1` followed by `m2`.
    spec fn endo_composition_spec(m1: M, m2: M) -> Self;

    /// Makes the morphism `m1` followed by `m2`.
    fn from_endo_composition(m1: &M, m2: &M) -> (composite: Self)
        ensures
            composite == Self::endo_composition_spec(*m1, *m2),
            composes(*m1, *m2, composite),
    ;
}

impl<S, M: Morphism<S, S>, T> FromComposition<S, S, S, M, M> for T where
    T: FromEndoComposition<S, M>,
 {
    open spec fn composition_spec(m1: M, m2: M) -> Self {
        Self::endo_composition_spec(m1, m2)
    }

    fn from_composition(m1: &M, m2: &M) -> (composite: Self) {
        Self::from_endo_composition(m1, m2)
    }
}

/// The operator that composes the self-maps of `S`.
pub struct Composite<S> {
    _phantom_data: PhantomData<S>,
}

impl<S> Clone for Composite<S> {
    fn clone(&self) -> (copy: Self)
        ensures
            copy == *self,
    {
        Composite { _phantom_data: PhantomData }
    }
}

impl<S> Copy for Composite<S> {

}

impl<S> Operator for Composite<S> {
    closed spec fn token_spec() -> Self {
        Composite { _phantom_data: PhantomData }
    }

    proof fn token_is_unique(other: Self) {
    }

    fn operator_token() -> (token: Self) {
        Composite { _phantom_data: PhantomData }
    }
}

impl<S: ExactEq> Morphism<S, S> for Id<Composite<S>> {
    open spec fn arrow_spec(&self, s1: S, s2: S) -> bool {
        s1 == s2
    }

    fn arrow(&self, s1: &S, s2: &S) -> (related: bool) {
        proof {
            S::eq_is_exact(*s1, *s2);
        }
        *s1 == *s2
    }
}

impl<S: ExactEq> MapOwned<S, S> for Id<Composite<S>> {
    open spec fn map_spec(&self, s: S) -> S {
        s
    }

    proof fn arrow_is_graph(&self, s1: S, s2: S) {
    }

    fn map(&self, s: S) -> (image: S) {
        s
    }
}

impl<S: ExactValue> MapRef<S, S> for Id<Composite<S>> {
    fn map_ref(&self, s: &S) -> (image: S) {
        let image = s.clone();
        proof {
            S::clone_is_exact(*s, image);
        }
        image
    }
}

impl<S: ExactValue> MapTo<S, S> for Id<Composite<S>> {
    fn map_to(&self, s1: &S, s2: &mut S) {
        let image = s1.clone();
        proof {
            S::clone_is_exact(*s1, image);
        }
        *s2 = image;
    }
}

impl<S: ExactEq> FromEndoComposition<S, Id<Composite<S>>> for Id<Composite<S>> {
    open spec fn endo_composition_spec(m1: Self, m2: Self) -> Self {
        m1
    }

    fn from_endo_composition(m1: &Self, m2: &Self) -> (composite: Self) {
        let composite = Id::new();
        proof {
            composite.is_unique();
            m1.is_unique();
            assert forall|s1: S, s3: S| #[trigger]
                composite.arrow_spec(s1, s3) <==> exists|s2: S| #[trigger]
                    m1.arrow_spec(s1, s2) && m2.arrow_spec(s2, s3) by {
                if s1 == s3 {
                    assert(m1.arrow_spec(s1, s1) && m2.arrow_spec(s1, s3));
                }
            }
        }
        composite
    }
}

/// A map made of two maps sends each value to the image, under the second
/// map, of its image under the first.
pub proof fn composite_has_composed_images<
    S1,
    S2,
    S3,
    M1: MapOwned<S1, S2>,
    M2: MapOwned<S2, S3>,
    M3: MapOwned<S1, S3>,
>(first: M1, second: M2, composite: M3)
    requires
        composes(first, second, composite),
    ensures
        forall|s: S1| #[trigger] composite.map_spec(s) == second.map_spec(first.map_spec(s)),
{
    assert forall|s: S1| #[trigger] composite.map_spec(s) == second.map_spec(
        first.map_spec(s),
    ) by {
        let s2 = first.map_spec(s);
        let s3 = second.map_spec(s2);
        first.arrow_is_graph(s, s2);
        second.arrow_is_graph(s2, s3);
        assert(first.arrow_spec(s, s2) && second.arrow_spec(s2, s3));
        composite.arrow_is_graph(s, s3);
    }
}

/// A map that sends each value to the image, under a second map, of its
/// image under a first, is the first map followed by the second.
pub proof fn composed_images_make_composite<
    S1,
    S2,
    S3,
    M1: MapOwned<S1, S2>,
    M2: MapOwned<S2, S3>,
    M3: MapOwned<S1, S3>,
>(first: M1, second: M2, composite: M3)
    requires
        forall|s: S1| #[trigger] composite.map_spec(s) == second.map_spec(first.map_spec(s)),
    ensures
        composes(first, second, composite),
{
    assert forall|s1: S1, s3: S3| #[trigger]
        composite.arrow_spec(s1, s3) <==> exists|s2: S2| #[trigger]
            first.arrow_spec(s1, s2) && second.arrow_spec(s2, s3) by {
        let image = first.map_spec(s1);
        composite.arrow_is_graph(s1, s3);
        first.arrow_is_graph(s1, image);
        second.arrow_is_graph(image, s3);
        assert(composite.map_spec(s1) == second.map_spec(image));
        if composite.arrow_spec(s1, s3) {
            assert(first.arrow_spec(s1, image) && second.arrow_spec(image, s3));
        }
        if exists|s2: S2| #[trigger] first.arrow_spec(s1, s2) && second.arrow_spec(s2, s3) {
            let s2 = choose|s2: S2| #[trigger]
                first.arrow_spec(s1, s2) && second.arrow_spec(s2, s3);
            first.arrow_is_graph(s1, s2);
            second.arrow_is_graph(s2, s3);
        }
    }
}

/// The identity self-map followed by a morphism, or a morphism followed by
/// the identity self-map, relates the same values as the morphism alone.
pub proof fn identity_is_neutral<S: ExactEq, F: Morphism<S, S>, C: Morphism<S, S>>(
    id: Id<Composite<S>>,
    f: F,
    composite: C,
)
    requires
        composes(id, f, composite) || composes(f, id, composite),
    ensures
        same_arrows(composite, f),
{
    assert forall|s1: S, s2: S| #[trigger]
        composite.arrow_spec(s1, s2) == f.arrow_spec(s1, s2) by {
        if composes(id, f, composite) {
            if f.arrow_spec(s1, s2) {
                assert(id.arrow_spec(s1, s1) && f.arrow_spec(s1, s2));
            }
        } else {
            if f.arrow_spec(s1, s2) {
                assert(f.arrow_spec(s1, s2) && id.arrow_spec(s2, s2));
            }
        }
    }
}

/// The identity self-map followed by a map, or a map followed by the
/// identity self-map, has the images of the map alone.
pub proof fn identity_is_neutral_for_maps<S: ExactEq, F: MapOwned<S, S>, C: MapOwned<S, S>>(
    id: Id<Composite<S>>,
    f: F,
    composite: C,
)
    requires
        composes(id, f, composite) || composes(f, id, composite),
    ensures
        forall|s: S| #[trigger] composite.map_spec(s) == f.map_spec(s),
{
    if composes(id, f, composite) {
        composite_has_composed_images(id, f, composite);
    } else {
        composite_has_composed_images(f, id, composite);
    }
}

/// Composition is associative: `m1` followed by `m2`, and then `m3`, relates
/// the same values as `m1` followed by `m2` and then `m3`.
pub proof fn composition_is_associative<
    S1,
    S2,
    S3,
    S4,
    M1: Morphism<S1, S2>,
    M2: Morphism<S2, S3>,
    M3: Morphism<S3, S4>,
    M12: Morphism<S1, S3>,
    M23: Morphism<S2, S4>,
    L: Morphism<S1, S4>,
    R: Morphism<S1, S4>,
>(m1: M1, m2: M2, m3: M3, m12: M12, m23: M23, left: L, right: R)
    requires
        composes(m1, m2, m12),
        composes(m2, m3, m23),
        composes(m12, m3, left),
        composes(m1, m23, right),
    ensures
        same_arrows(left, right),
{
    assert forall|s1: S1, s4: S4| #[trigger]
        left.arrow_spec(s1, s4) == right.arrow_spec(s1, s4) by {
        if left.arrow_spec(s1, s4) {
            let s3 = choose|s3: S3| #[trigger] m12.arrow_spec(s1, s3) && m3.arrow_spec(s3, s4);
            let s2 = choose|s2: S2| #[trigger] m1.arrow_spec(s1, s2) && m2.arrow_spec(s2, s3);
            assert(m2.arrow_spec(s2, s3) && m3.arrow_spec(s3, s4));
            assert(m1.arrow_spec(s1, s2) && m23.arrow_spec(s2, s4));
        }
        if right.arrow_spec(s1, s4) {
            let s2 = choose|s2: S2| #[trigger] m1.arrow_spec(s1, s2) && m23.arrow_spec(s2, s4);
            let s3 = choose|s3: S3| #[trigger] m2.arrow_spec(s2, s3) && m3.arrow_spec(s3, s4);
            assert(m1.arrow_spec(s1, s2) && m2.arrow_spec(s2, s3));
            assert(m12.arrow_spec(s1, s3) && m3.arrow_spec(s3, s4));
        }
    }
}

} // verus!
