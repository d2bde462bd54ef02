//! Maps between structures: the relation that a morphism stands for, the
//! ways in which a map takes its argument and hands out its result,
//! composition, and the maps that preserve structure.

pub mod composition;
pub mod homomorphisms;
pub mod morphism;

pub use self::composition::{Composite, FromComposition, FromEndoComposition};
pub use self::homomorphisms::{
    AbstractModuleHomomorphism, GroupHomomorphism, LinearHomomorphism, MagmaHomomorphism,
    ModuleHomomorphism, MonoidHomomorphism, RingHomomorphism, SemigroupHomomorphism,
};
pub use self::morphism::{arrow_of_map, MapMutRef, MapMutTo, MapOwned, MapRef, MapTo, Morphism};
