//! Structures of linear algebra: vector spaces, and algebras over them.

pub mod algebra;
pub mod dynamic;
pub mod vector;

pub use self::algebra::{
    Algebra, AssociativeAlgebra, ExpLieAlgebra, LawfulLieAlgebra, LieAlgebra, LieBracket,
    LieBracketOp, UnitalAlgebra,
};
pub use self::dynamic::DynamicVectorSpace;
pub use self::vector::VectorSpace;
