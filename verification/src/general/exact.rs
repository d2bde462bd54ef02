//! Values that can be compared and copied exactly.

use vstd::prelude::*;
use vstd::std_specs::cmp::PartialEqSpec;

verus! {

/// A type whose `==` decides equality of values.
pub trait ExactEq: PartialEq + Sized {
    /// `==` returns `true` on equal values, and on no others.
    proof fn eq_is_exact(a: Self, b: Self)
        ensures
            Self::obeys_eq_spec(),
            a.eq_spec(&b) <==> a == b,
    ;
}

/// A type whose `==` decides equality of values and whose `clone` returns a
/// value equal to its source.
pub trait ExactValue: ExactEq + Clone {
    /// A clone equals its source.
    proof fn clone_is_exact(a: Self, b: Self)
        requires
            cloned::<Self>(a, b),
        ensures
            a == b,
    ;
}

impl ExactEq for bool {
    proof fn eq_is_exact(a: Self, b: Self) {
    }
}

impl ExactValue for bool {
    proof fn clone_is_exact(a: Self, b: Self) {
    }
}

impl ExactEq for u8 {
    proof fn eq_is_exact(a: Self, b: Self) {
    }
}

impl ExactValue for u8 {
    proof fn clone_is_exact(a: Self, b: Self) {
    }
}

impl ExactEq for u16 {
    proof fn eq_is_exact(a: Self, b: Self) {
    }
}

impl ExactValue for u16 {
    proof fn clone_is_exact(a: Self, b: Self) {
    }
}

impl ExactEq for u32 {
    proof fn eq_is_exact(a: Self, b: Self) {
    }
}

impl ExactValue for u32 {
    proof fn clone_is_exact(a: Self, b: Self) {
    }
}

impl ExactEq for u64 {
    proof fn eq_is_exact(a: Self, b: Self) {
    }
}

impl ExactValue for u64 {
    proof fn clone_is_exact(a: Self, b: Self) {
    }
}

impl ExactEq for u128 {
    proof fn eq_is_exact(a: Self, b: Self) {
    }
}

impl ExactValue for u128 {
    proof fn clone_is_exact(a: Self, b: Self) {
    }
}

impl ExactEq for usize {
    proof fn eq_is_exact(a: Self, b: Self) {
    }
}

impl ExactValue for usize {
    proof fn clone_is_exact(a: Self, b: Self) {
    }
}

impl ExactEq for i8 {
    proof fn eq_is_exact(a: Self, b: Self) {
    }
}

impl ExactValue for i8 {
    proof fn clone_is_exact(a: Self, b: Self) {
    }
}

impl ExactEq for i16 {
    proof fn eq_is_exact(a: Self, b: Self) {
    }
}

impl ExactValue for i16 {
    proof fn clone_is_exact(a: Self, b: Self) {
    }
}

impl ExactEq for i32 {
    proof fn eq_is_exact(a: Self, b: Self) {
    }
}

impl ExactValue for i32 {
    proof fn clone_is_exact(a: Self, b: Self) {
    }
}

impl ExactEq for i64 {
    proof fn eq_is_exact(a: Self, b: Self) {
    }
}

impl ExactValue for i64 {
    proof fn clone_is_exact(a: Self, b: Self) {
    }
}

impl ExactEq for i128 {
    proof fn eq_is_exact(a: Self, b: Self) {
    }
}

impl ExactValue for i128 {
    proof fn clone_is_exact(a: Self, b: Self) {
    }
}

impl ExactEq for isize {
    proof fn eq_is_exact(a: Self, b: Self) {
    }
}

impl ExactValue for isize {
    proof fn clone_is_exact(a: Self, b: Self) {
    }
}

} // verus!
