//! Structures that prove their laws.
//!
//! The structures of [`super::one_operator`] are declared, not proved. A type
//! that also proves the law of a structure, for all of its values, has the
//! trait of that structure here, and the theorems of the library hold of it.

use super::identity::neutral;
use super::one_operator::{
    associates_at, commutes_at, divides_at, identity_is_neutral_at, op, AbstractGroup,
    AbstractGroupAbelian, AbstractMonoid, AbstractQuasigroup, AbstractSemigroup,
};
use super::operator::{inverse, Operator};
use vstd::prelude::*;

verus! {

/// A quasigroup with a proof that division is always possible.
pub trait LawfulQuasigroup<O: Operator>: AbstractQuasigroup<O> {
    /// Operating with `b` and with the inverse of `b`, in either order and on
    /// either side, gives `a` back.
    proof fn division_law(a: Self, b: Self)
        ensures
            divides_at::<O, Self>(a, b),
    ;
}

/// A semigroup with a proof that its operation is associative.
pub trait LawfulSemigroup<O: Operator>: AbstractSemigroup<O> {
    /// `(a ∘ b) ∘ c` equals `a ∘ (b ∘ c)`.
    proof fn associative_law(a: Self, b: Self, c: Self)
        ensures
            associates_at::<O, Self>(a, b, c),
    ;
}

/// A monoid with proofs that its operation is associative and that its
/// identity element is neutral.
pub trait LawfulMonoid<O: Operator>: AbstractMonoid<O> + LawfulSemigroup<O> {
    /// Operating with the identity element, on either side, changes nothing.
    proof fn identity_law(a: Self)
        ensures
            identity_is_neutral_at::<O, Self>(a),
    ;
}

/// A group with the proofs of a quasigroup and of a monoid. Every such type
/// has this trait.
pub trait LawfulGroup<O: Operator>: AbstractGroup<O> + LawfulQuasigroup<O> + LawfulMonoid<O> {

}

impl<O: Operator, T: AbstractGroup<O> + LawfulQuasigroup<O> + LawfulMonoid<O>> LawfulGroup<O> for T {

}

/// An abelian group with a proof that its operation is commutative.
pub trait LawfulGroupAbelian<O: Operator>: AbstractGroupAbelian<O> + LawfulGroup<O> {
    /// `a ∘ b` equals `b ∘ a`.
    proof fn commutative_law(a: Self, b: Self)
        ensures
            commutes_at::<O, Self>(a, b),
    ;
}

/// In a group, an element and its inverse operate to the identity element.
pub proof fn inverse_law<O: Operator, G: LawfulGroup<O>>(a: G)
    ensures
        op::<O, G>(a, inverse::<O, G>(a)) == neutral::<O, G>(),
        op::<O, G>(inverse::<O, G>(a), a) == neutral::<O, G>(),
{
    let e = neutral::<O, G>();
    G::identity_law(a);
    G::division_law(e, a);
}

} // verus!
