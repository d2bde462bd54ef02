//! Identity elements, and the structure that has nothing else.

use super::approx_eq::ApproxEq;
use super::exact::{ExactEq, ExactValue};
use super::lawful::{LawfulGroupAbelian, LawfulMonoid, LawfulQuasigroup, LawfulSemigroup};
use super::one_operator::{
    AbstractGroup, AbstractGroupAbelian, AbstractLoop, AbstractMagma, AbstractMonoid,
    AbstractQuasigroup, AbstractSemigroup,
};
use super::operator::{Operator, TwoSidedInverse};
use std::marker::PhantomData;
use vstd::prelude::*;

verus! {

/// A type with one identity element under `O`, known without a sample.
pub trait Identity<O: Operator>: Sized {
    /// The identity element.
    spec fn identity_spec() -> Self;

    /// Returns the identity element.
    fn identity() -> (e: Self)
        ensures
            e == Self::identity_spec(),
    ;
}

/// A type that assigns an identity element under `O` to each of its values.
///
/// Every type with an [`Identity`] has this capability: each value is
/// assigned the one identity element.
pub trait DynamicIdentity<O: Operator>: Sized {
    /// The identity element assigned to `self`.
    spec fn identity_of_spec(&self) -> Self;

    /// Returns the identity element assigned to `self`.
    fn identity(&self) -> (e: Self)
        ensures
            e == self.identity_of_spec(),
    ;
}

impl<O: Operator, T: Identity<O>> DynamicIdentity<O> for T {
    open spec fn identity_of_spec(&self) -> Self {
        T::identity_spec()
    }

    fn identity(&self) -> (e: Self) {
        <T as Identity<O>>::identity()
    }
}

/// The identity element of `T` under `O`.
pub open spec fn neutral<O: Operator, T: Identity<O>>() -> T {
    T::identity_spec()
}

/// The identity element that `T` assigns to `a` under `O`.
pub open spec fn neutral_of<O: Operator, T: DynamicIdentity<O>>(a: T) -> T {
    a.identity_of_spec()
}

/// The structure with a single element: the identity under `O`.
pub struct Id<O: Operator> {
    _op: PhantomData<O>,
}

impl<O: Operator> Id<O> {
    /// The element.
    pub closed spec fn element() -> Id<O> {
        Id { _op: PhantomData }
    }

    /// Any value of this type is the element.
    pub proof fn is_unique(self)
        ensures
            self == Self::element(),
    {
    }

    /// Returns the element.
    pub fn new() -> (id: Id<O>)
        ensures
            id == Self::element(),
    {
        Id { _op: PhantomData }
    }
}

impl<O: Operator> Clone for Id<O> {
    fn clone(&self) -> (copy: Self)
        ensures
            copy == *self,
    {
        proof {
            self.is_unique();
        }
        Id::new()
    }
}

impl<O: Operator> Copy for Id<O> {

}

impl<O: Operator> PartialEq for Id<O> {
    fn eq(&self, other: &Self) -> (equal: bool) {
        true
    }
}

impl<O: Operator> Eq for Id<O> {

}

impl<O: Operator> vstd::std_specs::cmp::PartialEqSpecImpl for Id<O> {
    open spec fn obeys_eq_spec() -> bool {
        true
    }

    open spec fn eq_spec(&self, other: &Self) -> bool {
        true
    }
}

impl<O: Operator> ApproxEq for Id<O> {
    open spec fn approx_eq_spec(&self, other: &Self) -> bool {
        true
    }

    fn approx_eq(&self, other: &Self) -> (equal: bool) {
        true
    }
}

impl<O: Operator> ExactEq for Id<O> {
    proof fn eq_is_exact(a: Self, b: Self) {
        a.is_unique();
        b.is_unique();
    }
}

impl<O: Operator> ExactValue for Id<O> {
    proof fn clone_is_exact(a: Self, b: Self) {
        a.is_unique();
        b.is_unique();
    }
}

impl<O: Operator> Identity<O> for Id<O> {
    open spec fn identity_spec() -> Self {
        Self::element()
    }

    fn identity() -> (e: Self) {
        Id::new()
    }
}

} // verus!

verus! {

impl<O: Operator> AbstractMagma<O> for Id<O> {
    open spec fn operate_spec(&self, right: &Self) -> Self {
        *self
    }

    fn operate(&self, right: &Self) -> (result: Self) {
        proof {
            self.is_unique();
        }
        Id::new()
    }
}

impl<O: Operator> TwoSidedInverse<O> for Id<O> {
    open spec fn two_sided_inverse_spec(&self) -> Self {
        *self
    }

    fn two_sided_inverse(&self) -> (inverse: Self) {
        proof {
            self.is_unique();
        }
        Id::new()
    }
}

impl<O: Operator> AbstractQuasigroup<O> for Id<O> {

}

impl<O: Operator> AbstractSemigroup<O> for Id<O> {

}

impl<O: Operator> AbstractLoop<O> for Id<O> {

}

impl<O: Operator> AbstractMonoid<O> for Id<O> {

}

impl<O: Operator> AbstractGroup<O> for Id<O> {

}

impl<O: Operator> AbstractGroupAbelian<O> for Id<O> {

}

impl<O: Operator> LawfulQuasigroup<O> for Id<O> {
    proof fn division_law(a: Self, b: Self) {
    }
}

impl<O: Operator> LawfulSemigroup<O> for Id<O> {
    proof fn associative_law(a: Self, b: Self, c: Self) {
    }
}

impl<O: Operator> LawfulMonoid<O> for Id<O> {
    proof fn identity_law(a: Self) {
        a.is_unique();
    }
}

impl<O: Operator> LawfulGroupAbelian<O> for Id<O> {
    proof fn commutative_law(a: Self, b: Self) {
    }
}

} // verus!
