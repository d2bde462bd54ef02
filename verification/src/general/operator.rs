//! Operator tokens and the inverse of an element under an operator.

use vstd::prelude::*;

verus! {

/// A binary operation, named by a token type that carries no data.
///
/// A structure is always a structure *under* some operator: one type can be a
/// group under [`Additive`] and a monoid under [`Multiplicative`] at once.
pub trait Operator: Copy {
    /// The token.
    spec fn token_spec() -> Self;

    /// The token is the only value of its type.
    proof fn token_is_unique(other: Self)
        ensures
            other == Self::token_spec(),
    ;

    /// Returns the token.
    fn operator_token() -> (token: Self)
        ensures
            token == Self::token_spec(),
    ;
}

/// The addition operator, commonly written `+`.
#[derive(Clone, Copy)]
pub struct Additive;

/// The multiplication operator, commonly written `*`.
#[derive(Clone, Copy)]
pub struct Multiplicative;

impl Operator for Additive {
    open spec fn token_spec() -> Self {
        Additive
    }

    proof fn token_is_unique(other: Self) {
    }

    fn operator_token() -> (token: Self) {
        Additive
    }
}

impl Operator for Multiplicative {
    open spec fn token_spec() -> Self {
        Multiplicative
    }

    proof fn token_is_unique(other: Self) {
    }

    fn operator_token() -> (token: Self) {
        Multiplicative
    }
}

/// An element's inverse under `O`, the same on the left and on the right.
pub trait TwoSidedInverse<O: Operator>: Sized {
    /// The inverse of `self`.
    spec fn two_sided_inverse_spec(&self) -> Self;

    /// Computes the inverse of `self`.
    fn two_sided_inverse(&self) -> (inverse: Self)
        ensures
            inverse == self.two_sided_inverse_spec(),
    ;
}

/// The inverse of `a` under `O`.
pub open spec fn inverse<O: Operator, T: TwoSidedInverse<O>>(a: T) -> T {
    a.two_sided_inverse_spec()
}

} // verus!
