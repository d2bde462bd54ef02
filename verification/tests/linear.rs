use alga::general::{
    AbstractField, AbstractGroup, AbstractGroupAbelian, AbstractLoop, AbstractMagma,
    AbstractModule, AbstractMonoid, AbstractQuasigroup, AbstractRing, AbstractRingCommutative,
    AbstractSemigroup, Additive, ApproxEq, Identity, Module, Multiplicative, Operator,
    TwoSidedInverse,
};
use alga::linear::{
    Algebra, DynamicVectorSpace, ExpLieAlgebra, LieAlgebra, LieBracket, LieBracketOp, VectorSpace,
};
use alga::morphisms::{
    AbstractModuleHomomorphism, GroupHomomorphism, LinearHomomorphism, MagmaHomomorphism,
    MapOwned, MonoidHomomorphism, Morphism, SemigroupHomomorphism,
};

/// The real numbers: the field of scalars, and a Lie algebra whose bracket
/// is zero everywhere.
#[derive(Clone, Copy, Debug, PartialEq)]
struct Scalar(f64);

impl AbstractMagma<Additive> for Scalar {
    fn operate_spec(&self, _: &Self) -> Self {
        unreachable!()
    }

    fn operate(&self, right: &Self) -> Self {
        Scalar(self.0 + right.0)
    }
}

impl AbstractMagma<Multiplicative> for Scalar {
    fn operate_spec(&self, _: &Self) -> Self {
        unreachable!()
    }

    fn operate(&self, right: &Self) -> Self {
        Scalar(self.0 * right.0)
    }
}

impl TwoSidedInverse<Additive> for Scalar {
    fn two_sided_inverse_spec(&self) -> Self {
        unreachable!()
    }

    fn two_sided_inverse(&self) -> Self {
        Scalar(-self.0)
    }
}

impl TwoSidedInverse<Multiplicative> for Scalar {
    fn two_sided_inverse_spec(&self) -> Self {
        unreachable!()
    }

    fn two_sided_inverse(&self) -> Self {
        Scalar(1.0 / self.0)
    }
}

impl Identity<Additive> for Scalar {
    fn identity_spec() -> Self {
        unreachable!()
    }

    fn identity() -> Self {
        Scalar(0.0)
    }
}

impl Identity<Multiplicative> for Scalar {
    fn identity_spec() -> Self {
        unreachable!()
    }

    fn identity() -> Self {
        Scalar(1.0)
    }
}

impl AbstractQuasigroup<Additive> for Scalar {}

impl AbstractSemigroup<Additive> for Scalar {}

impl AbstractSemigroup<Multiplicative> for Scalar {}

impl AbstractLoop<Additive> for Scalar {}

impl AbstractMonoid<Additive> for Scalar {}

impl AbstractMonoid<Multiplicative> for Scalar {}

impl AbstractGroup<Additive> for Scalar {}

impl AbstractGroupAbelian<Additive> for Scalar {}

impl AbstractRing<Additive, Multiplicative> for Scalar {}

impl AbstractRingCommutative<Additive, Multiplicative> for Scalar {}

impl AbstractField<Additive, Multiplicative> for Scalar {}

impl AbstractModule<Additive, Additive, Multiplicative> for Scalar {
    type AbstractRing = Scalar;

    fn multiply_by_spec(&self, _: Scalar) -> Self {
        unreachable!()
    }

    fn multiply_by(&self, r: Scalar) -> Self {
        Scalar(self.0 * r.0)
    }
}

impl std::ops::Mul for Scalar {
    type Output = Scalar;

    fn mul(self, right: Scalar) -> Scalar {
        Scalar(self.0 * right.0)
    }
}

impl Module for Scalar {
    type Ring = Scalar;
}

impl VectorSpace for Scalar {
    type Field = Scalar;
}

impl AbstractMagma<LieBracketOp> for Scalar {
    fn operate_spec(&self, _: &Self) -> Self {
        unreachable!()
    }

    fn operate(&self, _: &Self) -> Self {
        Scalar(0.0)
    }
}

impl Algebra<LieBracketOp> for Scalar {}

impl LieAlgebra for Scalar {}

impl ApproxEq for Scalar {
    fn approx_eq_spec(&self, _: &Self) -> bool {
        unreachable!()
    }

    fn approx_eq(&self, other: &Self) -> bool {
        approx::Relative::default().eq(&self.0, &other.0)
    }
}

impl DynamicVectorSpace for Scalar {
    type Field = Scalar;
}

/// The linear map `x ↦ k·x` of the real line.
struct Stretch(f64);

impl Morphism<Scalar, Scalar> for Stretch {
    fn arrow_spec(&self, _: Scalar, _: Scalar) -> bool {
        unreachable!()
    }

    fn arrow(&self, s1: &Scalar, s2: &Scalar) -> bool {
        (self.0 * s1.0).to_bits() == s2.0.to_bits()
    }
}

impl MapOwned<Scalar, Scalar> for Stretch {
    fn map_spec(&self, _: Scalar) -> Scalar {
        unreachable!()
    }

    fn arrow_is_graph(&self, _: Scalar, _: Scalar) {}

    fn map(&self, s1: Scalar) -> Scalar {
        Scalar(self.0 * s1.0)
    }
}

impl MagmaHomomorphism<Additive, Additive, Scalar, Scalar> for Stretch {}

impl SemigroupHomomorphism<Additive, Additive, Scalar, Scalar> for Stretch {}

impl MonoidHomomorphism<Additive, Additive, Scalar, Scalar> for Stretch {}

impl GroupHomomorphism<Additive, Additive, Scalar, Scalar> for Stretch {}

impl AbstractModuleHomomorphism<Additive, Additive, Additive, Multiplicative, Scalar, Scalar>
    for Stretch
{}

impl LinearHomomorphism<Scalar, Scalar> for Stretch {}

fn expects_linear<F: LinearHomomorphism<Scalar, Scalar>>(_: &F) {}

/// The positive real numbers, a group under multiplication.
#[derive(Clone, Copy, Debug, PartialEq)]
struct Positive(f64);

impl AbstractMagma<Multiplicative> for Positive {
    fn operate_spec(&self, _: &Self) -> Self {
        unreachable!()
    }

    fn operate(&self, right: &Self) -> Self {
        Positive(self.0 * right.0)
    }
}

impl TwoSidedInverse<Multiplicative> for Positive {
    fn two_sided_inverse_spec(&self) -> Self {
        unreachable!()
    }

    fn two_sided_inverse(&self) -> Self {
        Positive(1.0 / self.0)
    }
}

impl Identity<Multiplicative> for Positive {
    fn identity_spec() -> Self {
        unreachable!()
    }

    fn identity() -> Self {
        Positive(1.0)
    }
}

impl AbstractQuasigroup<Multiplicative> for Positive {}

impl AbstractSemigroup<Multiplicative> for Positive {}

impl AbstractLoop<Multiplicative> for Positive {}

impl AbstractMonoid<Multiplicative> for Positive {}

impl AbstractGroup<Multiplicative> for Positive {}

impl ExpLieAlgebra for Scalar {
    type LieGroup = Positive;

    fn lie_exp_spec(&self) -> Positive {
        unreachable!()
    }

    fn lie_exp(&self) -> Positive {
        Positive(self.0.exp())
    }
}

/// The 3×3 real matrices, a vector space. With `COMMUTATOR` the bracket is
/// the commutator `AB − BA`; without, it is the product `AB`, which is no
/// Lie bracket.
#[derive(Clone, Copy, Debug, PartialEq)]
struct Matrix<const COMMUTATOR: bool>([[f64; 3]; 3]);

fn product(a: &[[f64; 3]; 3], b: &[[f64; 3]; 3]) -> [[f64; 3]; 3] {
    let mut c = [[0.0; 3]; 3];
    for i in 0..3 {
        for j in 0..3 {
            for k in 0..3 {
                c[i][j] += a[i][k] * b[k][j];
            }
        }
    }
    c
}

fn entrywise(a: &[[f64; 3]; 3], b: &[[f64; 3]; 3], f: fn(f64, f64) -> f64) -> [[f64; 3]; 3] {
    let mut c = [[0.0; 3]; 3];
    for i in 0..3 {
        for j in 0..3 {
            c[i][j] = f(a[i][j], b[i][j]);
        }
    }
    c
}

/// The skew-symmetric matrix with the entries `x`, `y`, `z` above the
/// diagonal.
fn skew<const C: bool>(x: f64, y: f64, z: f64) -> Matrix<C> {
    Matrix([[0.0, x, y], [-x, 0.0, z], [-y, -z, 0.0]])
}

impl<const C: bool> AbstractMagma<Additive> for Matrix<C> {
    fn operate_spec(&self, _: &Self) -> Self {
        unreachable!()
    }

    fn operate(&self, right: &Self) -> Self {
        Matrix(entrywise(&self.0, &right.0, |x, y| x + y))
    }
}

impl<const C: bool> TwoSidedInverse<Additive> for Matrix<C> {
    fn two_sided_inverse_spec(&self) -> Self {
        unreachable!()
    }

    fn two_sided_inverse(&self) -> Self {
        Matrix(entrywise(&self.0, &self.0, |x, _| -x))
    }
}

impl<const C: bool> Identity<Additive> for Matrix<C> {
    fn identity_spec() -> Self {
        unreachable!()
    }

    fn identity() -> Self {
        Matrix([[0.0; 3]; 3])
    }
}

impl<const C: bool> AbstractQuasigroup<Additive> for Matrix<C> {}

impl<const C: bool> AbstractSemigroup<Additive> for Matrix<C> {}

impl<const C: bool> AbstractLoop<Additive> for Matrix<C> {}

impl<const C: bool> AbstractMonoid<Additive> for Matrix<C> {}

impl<const C: bool> AbstractGroup<Additive> for Matrix<C> {}

impl<const C: bool> AbstractGroupAbelian<Additive> for Matrix<C> {}

impl<const C: bool> AbstractModule<Additive, Additive, Multiplicative> for Matrix<C> {
    type AbstractRing = Scalar;

    fn multiply_by_spec(&self, _: Scalar) -> Self {
        unreachable!()
    }

    fn multiply_by(&self, r: Scalar) -> Self {
        let mut c = self.0;
        for row in c.iter_mut() {
            for entry in row.iter_mut() {
                *entry *= r.0;
            }
        }
        Matrix(c)
    }
}

impl<const C: bool> std::ops::Mul<Scalar> for Matrix<C> {
    type Output = Matrix<C>;

    fn mul(self, r: Scalar) -> Matrix<C> {
        self.multiply_by(r)
    }
}

impl<const C: bool> Module for Matrix<C> {
    type Ring = Scalar;
}

impl<const C: bool> VectorSpace for Matrix<C> {
    type Field = Scalar;
}

impl<const C: bool> AbstractMagma<LieBracketOp> for Matrix<C> {
    fn operate_spec(&self, _: &Self) -> Self {
        unreachable!()
    }

    fn operate(&self, right: &Self) -> Self {
        let ab = product(&self.0, &right.0);
        if C {
            Matrix(entrywise(&ab, &product(&right.0, &self.0), |x, y| x - y))
        } else {
            Matrix(ab)
        }
    }
}

impl<const C: bool> Algebra<LieBracketOp> for Matrix<C> {}

impl<const C: bool> LieAlgebra for Matrix<C> {}

impl<const C: bool> ApproxEq for Matrix<C> {
    fn approx_eq_spec(&self, _: &Self) -> bool {
        unreachable!()
    }

    fn approx_eq(&self, other: &Self) -> bool {
        (0..3).all(|i| (0..3).all(|j| approx::Relative::default().eq(&self.0[i][j], &other.0[i][j])))
    }
}

type Lie = Matrix<true>;

type Plain = Matrix<false>;

fn samples() -> Vec<Lie> {
    vec![
        skew(0.0, 0.0, 0.0),
        skew(1.0, 0.0, 0.0),
        skew(0.0, 1.0, 0.0),
        skew(0.0, 0.0, 1.0),
        skew(1.0, 2.0, 3.0),
        skew(-4.0, 5.0, 0.5),
        skew(0.25, -8.0, 16.0),
    ]
}

#[test]
fn lie_bracket_token_is_made_without_input() {
    let _bracket: LieBracketOp = LieBracketOp::operator_token();
}

#[test]
fn lie_bracket_is_the_operation_under_its_token() {
    let a: Lie = skew(1.0, 0.0, 0.0);
    let b: Lie = skew(0.0, 1.0, 0.0);
    assert_eq!(a.lie_bracket(&b), AbstractMagma::<LieBracketOp>::operate(&a, &b));
    // The bracket of two rotation generators is the third, up to sign.
    assert_eq!(a.lie_bracket(&b), skew(0.0, 0.0, -1.0));
    assert_eq!(b.lie_bracket(&a), skew(0.0, 0.0, 1.0));
}

#[test]
fn commutator_of_skew_symmetric_matrices_is_anti_symmetric() {
    for a in samples() {
        for b in samples() {
            assert!(Lie::anti_symmetric_bracket_rel(&a, &b));
            assert!(Lie::anti_symmetric_bracket(&a, &b));
        }
    }
}

#[test]
fn commutator_of_any_matrices_is_anti_symmetric() {
    let a: Lie = Matrix([[1.0, 2.0, 3.0], [4.0, 5.0, 6.0], [7.0, 8.0, 9.0]]);
    let b: Lie = Matrix([[0.0, -1.0, 2.0], [3.0, 0.5, 0.0], [-6.0, 1.0, 1.0]]);
    assert!(Lie::anti_symmetric_bracket_rel(&a, &b));
    assert!(Lie::anti_symmetric_bracket(&a, &b));
    assert!(Lie::anti_symmetric_bracket(&a, &a));
}

#[test]
fn commutator_of_skew_symmetric_matrices_meets_the_jacobi_identity() {
    for a in samples() {
        for b in samples() {
            for c in samples() {
                assert!(Lie::jacobi_identity_bracket(&a, &b, &c));
            }
        }
    }
}

#[test]
fn plain_product_is_not_anti_symmetric() {
    let mut a = [[0.0; 3]; 3];
    let mut b = [[0.0; 3]; 3];
    a[0][1] = 1.0;
    b[1][0] = 1.0;
    // AB + BA has ones in the first two places of the diagonal.
    assert!(!Plain::anti_symmetric_bracket_rel(&Matrix(a), &Matrix(b)));
    assert!(!Plain::anti_symmetric_bracket(&Matrix(a), &Matrix(b)));
    // The product of a matrix with the zero matrix is zero on both sides.
    let zero = Matrix([[0.0; 3]; 3]);
    assert!(Plain::anti_symmetric_bracket_rel(&Matrix(a), &zero));
    assert!(Plain::anti_symmetric_bracket(&Matrix(a), &zero));
}

#[test]
fn plain_product_does_not_meet_the_jacobi_identity() {
    let one = Matrix([[1.0, 0.0, 0.0], [0.0, 1.0, 0.0], [0.0, 0.0, 1.0]]);
    // Each of the three terms is the unit matrix.
    assert!(!Plain::jacobi_identity_bracket(&one, &one, &one));
    let zero = Matrix([[0.0; 3]; 3]);
    assert!(Plain::jacobi_identity_bracket(&one, &zero, &one));
}

#[test]
fn zero_bracket_passes_both_checks() {
    assert!(Scalar::anti_symmetric_bracket_rel(&Scalar(2.0), &Scalar(-7.5)));
    assert!(Scalar::anti_symmetric_bracket(&Scalar(2.0), &Scalar(-7.5)));
    assert!(Scalar::jacobi_identity_bracket(&Scalar(2.0), &Scalar(-7.5), &Scalar(1.0)));
}

#[test]
fn exponential_map_sends_zero_to_one() {
    assert_eq!(Scalar(0.0).lie_exp(), Positive(1.0));
    assert_eq!(Scalar(0.0).lie_exp(), <Positive as Identity<Multiplicative>>::identity());
    let e = Scalar(1.0).lie_exp();
    assert!(e.0 > 2.718 && e.0 < 2.719);
}

#[test]
fn linear_map_of_the_real_line_preserves_addition() {
    let half = Stretch(0.5);
    expects_linear(&half);
    assert!(half.prop_preserves_operator(Scalar(0.25), Scalar(3.0)));
    assert!(half.prop_preserves_operator(Scalar(-8.0), Scalar(8.0)));
    assert!(half.prop_preserves_identity());
    assert!(half.arrow(&Scalar(3.0), &Scalar(1.5)));
    assert!(!half.arrow(&Scalar(3.0), &Scalar(3.0)));
}

#[test]
fn sums_that_differ_by_rounding_are_accepted_as_equal() {
    // (0.1 + 0.2) + 0.3 and 0.1 + (0.2 + 0.3) differ in the last place.
    let left = (0.1 + 0.2) + 0.3;
    let right = 0.1 + (0.2 + 0.3);
    assert!(left != right);
    assert!(Scalar(left).approx_eq(&Scalar(right)));
    assert!(Stretch(1.0).prop_preserves_associative_operator(Scalar(0.1), Scalar(0.2), Scalar(0.3)));
}

#[test]
fn values_apart_by_more_than_the_tolerance_are_told_apart() {
    assert!(!Scalar(1.0).approx_eq(&Scalar(1.000001)));
    assert!(!Scalar(0.0).approx_eq(&Scalar(1.0e-9)));
    assert!(Scalar(1.0).approx_eq(&Scalar(1.0 + f64::EPSILON)));
    assert!(!Scalar(f64::NAN).approx_eq(&Scalar(f64::NAN)));
    assert!(Scalar(f64::INFINITY).approx_eq(&Scalar(f64::INFINITY)));
    assert!(!Scalar(f64::INFINITY).approx_eq(&Scalar(f64::NEG_INFINITY)));
}
