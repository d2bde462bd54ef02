//! Operators, identity elements and the structures built on one or two
//! operators.

pub mod approx_eq;
pub mod dynamic;
pub mod exact;
pub mod identity;
pub mod lawful;
pub mod module;
pub mod one_operator;
pub mod operator;
pub mod two_operators;

pub use self::approx_eq::ApproxEq;
pub use self::dynamic::{
    DynamicAbstractModule, DynamicGroup, DynamicGroupAbelian, DynamicLoop, DynamicModule,
    DynamicMonoid, DynamicRing, DynamicRingCommutative,
};
pub use self::exact::{ExactEq, ExactValue};
pub use self::identity::{DynamicIdentity, Id, Identity};
pub use self::lawful::{
    LawfulGroup, LawfulGroupAbelian, LawfulMonoid, LawfulQuasigroup, LawfulSemigroup,
};
pub use self::module::{AbstractModule, ClosedMul, Module};
pub use self::one_operator::{
    AbstractGroup, AbstractGroupAbelian, AbstractLoop, AbstractMagma, AbstractMonoid,
    AbstractQuasigroup, AbstractSemigroup,
};
pub use self::operator::{Additive, Multiplicative, Operator, TwoSidedInverse};
pub use self::two_operators::{AbstractField, AbstractRing, AbstractRingCommutative, Field};
