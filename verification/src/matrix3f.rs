//! A 3x3 row-major matrix with exact integer components: arithmetic,
//! transpose, determinant, cofactor, adjugate, and vector transform.

use vstd::prelude::*;

use crate::scalar::lemma_mul_comm;
use crate::scalar::lemma_mul_neg;
use crate::scalar::lemma_mul_sub;
use crate::scalar::lemma_mul_swap;
use crate::scalar::prod_det_minor;
use crate::scalar::prod_det_outer;
use crate::scalar::prod_mul;
use crate::scalar::LIMIT_ADD;
use crate::scalar::LIMIT_DET;
use crate::scalar::LIMIT_MUL;
use crate::vector3f::Vec3;
use crate::vector3f::Vector3f;

verus! {

/// The mathematical model of a 3x3 matrix: unbounded integer entries,
/// `mRC` holding row `R`, column `C`.
#[verifier::ext_equal]
pub ghost struct Mat3 {
    pub m00: int,
    pub m01: int,
    pub m02: int,
    pub m10: int,
    pub m11: int,
    pub m12: int,
    pub m20: int,
    pub m21: int,
    pub m22: int,
}

impl Mat3 {
    pub open spec fn identity() -> Mat3 {
        Mat3 { m00: 1, m01: 0, m02: 0, m10: 0, m11: 1, m12: 0, m20: 0, m21: 0, m22: 1 }
    }

    pub open spec fn zero() -> Mat3 {
        Mat3 { m00: 0, m01: 0, m02: 0, m10: 0, m11: 0, m12: 0, m20: 0, m21: 0, m22: 0 }
    }

    pub open spec fn one() -> Mat3 {
        Mat3 { m00: 1, m01: 1, m02: 1, m10: 1, m11: 1, m12: 1, m20: 1, m21: 1, m22: 1 }
    }

    /// The entry at row-major index `i` (row `i / 3`, column `i % 3`).
    pub open spec fn idx(self, i: int) -> int {
        if i == 0 {
            self.m00
        } else if i == 1 {
            self.m01
        } else if i == 2 {
            self.m02
        } else if i == 3 {
            self.m10
        } else if i == 4 {
            self.m11
        } else if i == 5 {
            self.m12
        } else if i == 6 {
            self.m20
        } else if i == 7 {
            self.m21
        } else {
            self.m22
        }
    }

    pub open spec fn add(self, other: Mat3) -> Mat3 {
        Mat3 {
            m00: self.m00 + other.m00,
            m01: self.m01 + other.m01,
            m02: self.m02 + other.m02,
            m10: self.m10 + other.m10,
            m11: self.m11 + other.m11,
            m12: self.m12 + other.m12,
            m20: self.m20 + other.m20,
            m21: self.m21 + other.m21,
            m22: self.m22 + other.m22,
        }
    }

    pub open spec fn sub(self, other: Mat3) -> Mat3 {
        Mat3 {
            m00: self.m00 - other.m00,
            m01: self.m01 - other.m01,
            m02: self.m02 - other.m02,
            m10: self.m10 - other.m10,
            m11: self.m11 - other.m11,
            m12: self.m12 - other.m12,
            m20: self.m20 - other.m20,
            m21: self.m21 - other.m21,
            m22: self.m22 - other.m22,
        }
    }

    /// Every entry multiplied by `s`.
    pub open spec fn scale(self, s: int) -> Mat3 {
        Mat3 {
            m00: self.m00 * s,
            m01: self.m01 * s,
            m02: self.m02 * s,
            m10: self.m10 * s,
            m11: self.m11 * s,
            m12: self.m12 * s,
            m20: self.m20 * s,
            m21: self.m21 * s,
            m22: self.m22 * s,
        }
    }

    /// The standard row-by-column matrix product.
    pub open spec fn mul(self, other: Mat3) -> Mat3 {
        Mat3 {
            m00: self.m00 * other.m00 + self.m01 * other.m10 + self.m02 * other.m20,
            m01: self.m00 * other.m01 + self.m01 * other.m11 + self.m02 * other.m21,
            m02: self.m00 * other.m02 + self.m01 * other.m12 + self.m02 * other.m22,
            m10: self.m10 * other.m00 + self.m11 * other.m10 + self.m12 * other.m20,
            m11: self.m10 * other.m01 + self.m11 * other.m11 + self.m12 * other.m21,
            m12: self.m10 * other.m02 + self.m11 * other.m12 + self.m12 * other.m22,
            m20: self.m20 * other.m00 + self.m21 * other.m10 + self.m22 * other.m20,
            m21: self.m20 * other.m01 + self.m21 * other.m11 + self.m22 * other.m21,
            m22: self.m20 * other.m02 + self.m21 * other.m12 + self.m22 * other.m22,
        }
    }

    pub open spec fn transpose(self) -> Mat3 {
        Mat3 {
            m00: self.m00,
            m01: self.m10,
            m02: self.m20,
            m10: self.m01,
            m11: self.m11,
            m12: self.m21,
            m20: self.m02,
            m21: self.m12,
            m22: self.m22,
        }
    }

    /// The matrix applied to a column vector: each component is the dot of a
    /// row with the vector.
    pub open spec fn transform(self, v: Vec3) -> Vec3 {
        Vec3 {
            x: self.m00 * v.x + self.m01 * v.y + self.m02 * v.z,
            y: self.m10 * v.x + self.m11 * v.y + self.m12 * v.z,
            z: self.m20 * v.x + self.m21 * v.y + self.m22 * v.z,
        }
    }

    /// Cofactor expansion along the first row.
    pub open spec fn determinant(self) -> int {
        self.m00 * (self.m11 * self.m22 - self.m12 * self.m21) - self.m01 * (self.m10 * self.m22
            - self.m12 * self.m20) + self.m02 * (self.m10 * self.m21 - self.m11 * self.m20)
    }

    /// The matrix of signed minors, checkerboard sign pattern.
    pub open spec fn cofactor(self) -> Mat3 {
        Mat3 {
            m00: self.m11 * self.m22 - self.m12 * self.m21,
            m01: -(self.m10 * self.m22 - self.m12 * self.m20),
            m02: self.m10 * self.m21 - self.m11 * self.m20,
            m10: -(self.m01 * self.m22 - self.m02 * self.m21),
            m11: self.m00 * self.m22 - self.m02 * self.m20,
            m12: -(self.m00 * self.m21 - self.m01 * self.m20),
            m20: self.m01 * self.m12 - self.m02 * self.m11,
            m21: -(self.m00 * self.m12 - self.m02 * self.m10),
            m22: self.m00 * self.m11 - self.m01 * self.m10,
        }
    }

    /// The transpose of the cofactor matrix.
    pub open spec fn adjugate(self) -> Mat3 {
        self.cofactor().transpose()
    }

    /// Every entry lies within `[-b, b]`.
    pub open spec fn in_limit(self, b: int) -> bool {
        &&& -b <= self.m00 <= b
        &&& -b <= self.m01 <= b
        &&& -b <= self.m02 <= b
        &&& -b <= self.m10 <= b
        &&& -b <= self.m11 <= b
        &&& -b <= self.m12 <= b
        &&& -b <= self.m20 <= b
        &&& -b <= self.m21 <= b
        &&& -b <= self.m22 <= b
    }
}

/// A 3x3 row-major matrix of `i64` entries, `mRC` holding row `R`, column `C`.
#[derive(Clone, Debug, PartialEq, Eq, Structural)]
pub struct Matrix3f {
    pub m00: i64,
    pub m01: i64,
    pub m02: i64,
    pub m10: i64,
    pub m11: i64,
    pub m12: i64,
    pub m20: i64,
    pub m21: i64,
    pub m22: i64,
}

impl View for Matrix3f {
    type V = Mat3;

    open spec fn view(&self) -> Mat3 {
        Mat3 {
            m00: self.m00 as int,
            m01: self.m01 as int,
            m02: self.m02 as int,
            m10: self.m10 as int,
            m11: self.m11 as int,
            m12: self.m12 as int,
            m20: self.m20 as int,
            m21: self.m21 as int,
            m22: self.m22 as int,
        }
    }
}

impl Default for Matrix3f {
    /// The identity matrix.
    fn default() -> (r: Self)
        ensures
            r@ == Mat3::identity(),
    {
        Matrix3f::identity()
    }
}

impl Matrix3f {
    /// Builds a matrix from its entries in row-major order.
    #[allow(clippy::too_many_arguments)]
    pub fn new(
        m00: i64,
        m01: i64,
        m02: i64,
        m10: i64,
        m11: i64,
        m12: i64,
        m20: i64,
        m21: i64,
        m22: i64,
    ) -> (r: Self)
        ensures
            r@ == (Mat3 {
                m00: m00 as int,
                m01: m01 as int,
                m02: m02 as int,
                m10: m10 as int,
                m11: m11 as int,
                m12: m12 as int,
                m20: m20 as int,
                m21: m21 as int,
                m22: m22 as int,
            }),
    {
        Matrix3f { m00, m01, m02, m10, m11, m12, m20, m21, m22 }
    }

    pub fn one() -> (r: Self)
        ensures
            r@ == Mat3::one(),
    {
        Matrix3f { m00: 1, m01: 1, m02: 1, m10: 1, m11: 1, m12: 1, m20: 1, m21: 1, m22: 1 }
    }

    pub fn zero() -> (r: Self)
        ensures
            r@ == Mat3::zero(),
    {
        Matrix3f { m00: 0, m01: 0, m02: 0, m10: 0, m11: 0, m12: 0, m20: 0, m21: 0, m22: 0 }
    }

    pub fn identity() -> (r: Self)
        ensures
            r@ == Mat3::identity(),
    {
        Matrix3f { m00: 1, m01: 0, m02: 0, m10: 0, m11: 1, m12: 0, m20: 0, m21: 0, m22: 1 }
    }

    /// The entry at row-major index `i`.
    pub fn data(&self, i: usize) -> (r: i64)
        requires
            i < 9,
        ensures
            r == self@.idx(i as int),
    {
        if i == 0 {
            self.m00
        } else if i == 1 {
            self.m01
        } else if i == 2 {
            self.m02
        } else if i == 3 {
            self.m10
        } else if i == 4 {
            self.m11
        } else if i == 5 {
            self.m12
        } else if i == 6 {
            self.m20
        } else if i == 7 {
            self.m21
        } else {
            self.m22
        }
    }

    /// Every entry multiplied by `s`.
    pub fn scale(&self, s: i64) -> (r: Self)
        requires
            self@.in_limit(LIMIT_MUL as int),
            -LIMIT_MUL <= s <= LIMIT_MUL,
        ensures
            r@ == self@.scale(s as int),
    {
        Matrix3f {
            m00: prod_mul(self.m00, s),
            m01: prod_mul(self.m01, s),
            m02: prod_mul(self.m02, s),
            m10: prod_mul(self.m10, s),
            m11: prod_mul(self.m11, s),
            m12: prod_mul(self.m12, s),
            m20: prod_mul(self.m20, s),
            m21: prod_mul(self.m21, s),
            m22: prod_mul(self.m22, s),
        }
    }

    /// Swaps entry (i, j) with entry (j, i).
    pub fn transpose(&self) -> (r: Self)
        ensures
            r@ == self@.transpose(),
    {
        Matrix3f {
            m00: self.m00,
            m01: self.m10,
            m02: self.m20,
            m10: self.m01,
            m11: self.m11,
            m12: self.m21,
            m20: self.m02,
            m21: self.m12,
            m22: self.m22,
        }
    }

    /// The matrix applied to a column vector.
    pub fn transform(&self, other: Vector3f) -> (r: Vector3f)
        requires
            self@.in_limit(LIMIT_MUL as int),
            other@.in_limit(LIMIT_MUL as int),
        ensures
            r@ == self@.transform(other@),
    {
        Vector3f {
            x: prod_mul(self.m00, other.x) + prod_mul(self.m01, other.y) + prod_mul(
                self.m02,
                other.z,
            ),
            y: prod_mul(self.m10, other.x) + prod_mul(self.m11, other.y) + prod_mul(
                self.m12,
                other.z,
            ),
            z: prod_mul(self.m20, other.x) + prod_mul(self.m21, other.y) + prod_mul(
                self.m22,
                other.z,
            ),
        }
    }

    /// Cofactor expansion along the first row.
    pub fn determinant(&self) -> (r: i64)
        requires
            self@.in_limit(LIMIT_DET as int),
        ensures
            r == self@.determinant(),
    {
        let a: i64 = prod_det_outer(
            self.m00,
            prod_det_minor(self.m11, self.m22) - prod_det_minor(self.m12, self.m21),
        );
        let b: i64 = prod_det_outer(
            self.m01,
            prod_det_minor(self.m10, self.m22) - prod_det_minor(self.m12, self.m20),
        );
        let c: i64 = prod_det_outer(
            self.m02,
            prod_det_minor(self.m10, self.m21) - prod_det_minor(self.m11, self.m20),
        );
        a - b + c
    }

    /// The matrix of signed minors, checkerboard sign pattern.
    pub fn cofactor(&self) -> (r: Self)
        requires
            self@.in_limit(LIMIT_MUL as int),
        ensures
            r@ == self@.cofactor(),
    {
        Matrix3f {
            m00: prod_mul(self.m11, self.m22) - prod_mul(self.m12, self.m21),
            m01: -(prod_mul(self.m10, self.m22) - prod_mul(self.m12, self.m20)),
            m02: prod_mul(self.m10, self.m21) - prod_mul(self.m11, self.m20),
            m10: -(prod_mul(self.m01, self.m22) - prod_mul(self.m02, self.m21)),
            m11: prod_mul(self.m00, self.m22) - prod_mul(self.m02, self.m20),
            m12: -(prod_mul(self.m00, self.m21) - prod_mul(self.m01, self.m20)),
            m20: prod_mul(self.m01, self.m12) - prod_mul(self.m02, self.m11),
            m21: -(prod_mul(self.m00, self.m12) - prod_mul(self.m02, self.m10)),
            m22: prod_mul(self.m00, self.m11) - prod_mul(self.m01, self.m10),
        }
    }

    /// The transpose of the cofactor matrix.
    pub fn adjugate(&self) -> (r: Self)
        requires
            self@.in_limit(LIMIT_MUL as int),
        ensures
            r@ == self@.adjugate(),
    {
        self.cofactor().transpose()
    }

    /// Whether the determinant is strictly positive. The test is one-sided:
    /// a matrix with a negative determinant is reported as not invertible.
    pub fn invertible(&self) -> (r: bool)
        requires
            self@.in_limit(LIMIT_DET as int),
        ensures
            r == (self@.determinant() > 0),
    {
        self.determinant() > 0
    }

    pub fn add(self, other: Self) -> (r: Self)
        requires
            self@.in_limit(LIMIT_ADD as int),
            other@.in_limit(LIMIT_ADD as int),
        ensures
            r@ == self@.add(other@),
    {
        Matrix3f {
            m00: self.m00 + other.m00,
            m01: self.m01 + other.m01,
            m02: self.m02 + other.m02,
            m10: self.m10 + other.m10,
            m11: self.m11 + other.m11,
            m12: self.m12 + other.m12,
            m20: self.m20 + other.m20,
            m21: self.m21 + other.m21,
            m22: self.m22 + other.m22,
        }
    }

    pub fn add_assign(&mut self, other: Self)
        requires
            old(self)@.in_limit(LIMIT_ADD as int),
            other@.in_limit(LIMIT_ADD as int),
        ensures
            final(self)@ == old(self)@.add(other@),
    {
        *self = Matrix3f {
            m00: self.m00 + other.m00,
            m01: self.m01 + other.m01,
            m02: self.m02 + other.m02,
            m10: self.m10 + other.m10,
            m11: self.m11 + other.m11,
            m12: self.m12 + other.m12,
            m20: self.m20 + other.m20,
            m21: self.m21 + other.m21,
            m22: self.m22 + other.m22,
        };
    }

    pub fn sub(self, other: Self) -> (r: Self)
        requires
            self@.in_limit(LIMIT_ADD as int),
            other@.in_limit(LIMIT_ADD as int),
        ensures
            r@ == self@.sub(other@),
    {
        Matrix3f {
            m00: self.m00 - other.m00,
            m01: self.m01 - other.m01,
            m02: self.m02 - other.m02,
            m10: self.m10 - other.m10,
            m11: self.m11 - other.m11,
            m12: self.m12 - other.m12,
            m20: self.m20 - other.m20,
            m21: self.m21 - other.m21,
            m22: self.m22 - other.m22,
        }
    }

    pub fn sub_assign(&mut self, other: Self)
        requires
            old(self)@.in_limit(LIMIT_ADD as int),
            other@.in_limit(LIMIT_ADD as int),
        ensures
            final(self)@ == old(self)@.sub(other@),
    {
        *self = Matrix3f {
            m00: self.m00 - other.m00,
            m01: self.m01 - other.m01,
            m02: self.m02 - other.m02,
            m10: self.m10 - other.m10,
            m11: self.m11 - other.m11,
            m12: self.m12 - other.m12,
            m20: self.m20 - other.m20,
            m21: self.m21 - other.m21,
            m22: self.m22 - other.m22,
        };
    }

    /// The entries as rows of fixed-size arrays, row-major.
    pub fn to_rows(&self) -> (r: [[i64; 3]; 3])
        ensures
            r@[0]@ == seq![self.m00, self.m01, self.m02],
            r@[1]@ == seq![self.m10, self.m11, self.m12],
            r@[2]@ == seq![self.m20, self.m21, self.m22],
    {
        [
            [self.m00, self.m01, self.m02],
            [self.m10, self.m11, self.m12],
            [self.m20, self.m21, self.m22],
        ]
    }

    /// The standard row-by-column matrix product.
    pub fn mul(self, other: Self) -> (r: Self)
        requires
            self@.in_limit(LIMIT_MUL as int),
            other@.in_limit(LIMIT_MUL as int),
        ensures
            r@ == self@.mul(other@),
    {
        Matrix3f {
            m00: prod_mul(self.m00, other.m00) + prod_mul(self.m01, other.m10) + prod_mul(
                self.m02,
                other.m20,
            ),
            m01: prod_mul(self.m00, other.m01) + prod_mul(self.m01, other.m11) + prod_mul(
                self.m02,
                other.m21,
            ),
            m02: prod_mul(self.m00, other.m02) + prod_mul(self.m01, other.m12) + prod_mul(
                self.m02,
                other.m22,
            ),
            m10: prod_mul(self.m10, other.m00) + prod_mul(self.m11, other.m10) + prod_mul(
                self.m12,
                other.m20,
            ),
            m11: prod_mul(self.m10, other.m01) + prod_mul(self.m11, other.m11) + prod_mul(
                self.m12,
                other.m21,
            ),
            m12: prod_mul(self.m10, other.m02) + prod_mul(self.m11, other.m12) + prod_mul(
                self.m12,
                other.m22,
            ),
            m20: prod_mul(self.m20, other.m00) + prod_mul(self.m21, other.m10) + prod_mul(
                self.m22,
                other.m20,
            ),
            m21: prod_mul(self.m20, other.m01) + prod_mul(self.m21, other.m11) + prod_mul(
                self.m22,
                other.m21,
            ),
            m22: prod_mul(self.m20, other.m02) + prod_mul(self.m21, other.m12) + prod_mul(
                self.m22,
                other.m22,
            ),
        }
    }

    pub fn mul_assign(&mut self, other: Self)
        requires
            old(self)@.in_limit(LIMIT_MUL as int),
            other@.in_limit(LIMIT_MUL as int),
        ensures
            final(self)@ == old(self)@.mul(other@),
    {
        *self = Matrix3f {
            m00: prod_mul(self.m00, other.m00) + prod_mul(self.m01, other.m10) + prod_mul(
                self.m02,
                other.m20,
            ),
            m01: prod_mul(self.m00, other.m01) + prod_mul(self.m01, other.m11) + prod_mul(
                self.m02,
                other.m21,
            ),
            m02: prod_mul(self.m00, other.m02) + prod_mul(self.m01, other.m12) + prod_mul(
                self.m02,
                other.m22,
            ),
            m10: prod_mul(self.m10, other.m00) + prod_mul(self.m11, other.m10) + prod_mul(
                self.m12,
                other.m20,
            ),
            m11: prod_mul(self.m10, other.m01) + prod_mul(self.m11, other.m11) + prod_mul(
                self.m12,
                other.m21,
            ),
            m12: prod_mul(self.m10, other.m02) + prod_mul(self.m11, other.m12) + prod_mul(
                self.m12,
                other.m22,
            ),
            m20: prod_mul(self.m20, other.m00) + prod_mul(self.m21, other.m10) + prod_mul(
                self.m22,
                other.m20,
            ),
            m21: prod_mul(self.m20, other.m01) + prod_mul(self.m21, other.m11) + prod_mul(
                self.m22,
                other.m21,
            ),
            m22: prod_mul(self.m20, other.m02) + prod_mul(self.m21, other.m12) + prod_mul(
                self.m22,
                other.m22,
            ),
        };
    }
}

/// Transposing a matrix twice gives the matrix back.
pub proof fn lemma_transpose_involutive(m: Mat3)
    ensures
        m.transpose().transpose() == m,
{
}

/// The identity matrix transforms every vector to itself.
pub proof fn lemma_identity_transform(v: Vec3)
    ensures
        Mat3::identity().transform(v) == v,
{
}

/// A matrix times its adjugate is the identity scaled by the determinant;
/// dividing by the determinant, where it is not zero, therefore yields the
/// inverse.
pub proof fn lemma_mul_adjugate(m: Mat3)
    ensures
        m.mul(m.adjugate()) == Mat3::identity().scale(m.determinant()),
{
    let a: int = m.m00;
    let b: int = m.m01;
    let c: int = m.m02;
    let d: int = m.m10;
    let e: int = m.m11;
    let f: int = m.m12;
    let g: int = m.m20;
    let h: int = m.m21;
    let i: int = m.m22;
    let det: int = m.determinant();
    let p: Mat3 = m.mul(m.adjugate());
    assert(a * (e * i - f * h) + b * (-(d * i - f * g)) + c * (d * h - e * g) == a * (e * i - f * h)
        - b * (d * i - f * g) + c * (d * h - e * g)) by (nonlinear_arith);
    assert(p.m00 == det);
    assert(a * (-(b * i - c * h)) + b * (a * i - c * g) + c * (-(a * h - b * g)) == 0)
        by (nonlinear_arith);
    assert(p.m01 == 0);
    assert(a * (b * f - c * e) + b * (-(a * f - c * d)) + c * (a * e - b * d) == 0)
        by (nonlinear_arith);
    assert(p.m02 == 0);
    assert(d * (e * i - f * h) + e * (-(d * i - f * g)) + f * (d * h - e * g) == 0)
        by (nonlinear_arith);
    assert(p.m10 == 0);
    lemma_mul_neg(d, b * i - c * h);
    lemma_mul_sub(d, b * i, c * h);
    lemma_mul_swap(d, b, i);
    lemma_mul_swap(d, c, h);
    lemma_mul_sub(e, a * i, c * g);
    lemma_mul_swap(e, a, i);
    lemma_mul_swap(e, c, g);
    lemma_mul_neg(f, a * h - b * g);
    lemma_mul_sub(f, a * h, b * g);
    lemma_mul_swap(f, a, h);
    lemma_mul_swap(f, b, g);
    lemma_mul_sub(a, e * i, f * h);
    lemma_mul_sub(b, d * i, f * g);
    lemma_mul_sub(c, d * h, e * g);
    assert(p.m11 == det);
    assert(d * (b * f - c * e) + e * (-(a * f - c * d)) + f * (a * e - b * d) == 0)
        by (nonlinear_arith);
    assert(p.m12 == 0);
    assert(g * (e * i - f * h) + h * (-(d * i - f * g)) + i * (d * h - e * g) == 0)
        by (nonlinear_arith);
    assert(p.m20 == 0);
    assert(g * (-(b * i - c * h)) + h * (a * i - c * g) + i * (-(a * h - b * g)) == 0)
        by (nonlinear_arith);
    assert(p.m21 == 0);
    lemma_mul_sub(g, b * f, c * e);
    lemma_mul_swap(g, b, f);
    lemma_mul_comm(g, f);
    lemma_mul_swap(g, c, e);
    lemma_mul_comm(g, e);
    lemma_mul_neg(h, a * f - c * d);
    lemma_mul_sub(h, a * f, c * d);
    lemma_mul_swap(h, a, f);
    lemma_mul_comm(h, f);
    lemma_mul_swap(h, c, d);
    lemma_mul_comm(h, d);
    lemma_mul_sub(i, a * e, b * d);
    lemma_mul_swap(i, a, e);
    lemma_mul_comm(i, e);
    lemma_mul_swap(i, b, d);
    lemma_mul_comm(i, d);
    assert(p.m22 == det);
    crate::scalar::lemma_one_mul(det);
    crate::scalar::lemma_zero_mul(det);
    assert(p =~= Mat3::identity().scale(det));
}

} // verus!
