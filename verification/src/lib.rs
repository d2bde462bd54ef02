//! Algebraic structures as capabilities that a type declares, the
//! capabilities derived from them with the predicates that test their laws
//! on samples, and the maps between structures.

pub mod general;
pub mod linear;
pub mod morphisms;
