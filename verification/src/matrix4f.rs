//! A 4x4 row-major matrix with exact integer components: arithmetic,
//! transpose, vector transform, and translation/scale constructors.

use vstd::prelude::*;

use crate::scalar::prod_mul;
use crate::scalar::LIMIT_ADD;
use crate::scalar::LIMIT_MUL;
use crate::vector3f::Vec3;
use crate::vector3f::Vector3f;
use crate::vector4f::Vec4;
use crate::vector4f::Vector4f;

verus! {

/// The mathematical model of a 4x4 matrix: unbounded integer entries,
/// `mRC` holding row `R`, column `C`.
#[verifier::ext_equal]
pub ghost struct Mat4 {
    pub m00: int,
    pub m01: int,
    pub m02: int,
    pub m03: int,
    pub m10: int,
    pub m11: int,
    pub m12: int,
    pub m13: int,
    pub m20: int,
    pub m21: int,
    pub m22: int,
    pub m23: int,
    pub m30: int,
    pub m31: int,
    pub m32: int,
    pub m33: int,
}

impl Mat4 {
    pub open spec fn identity() -> Mat4 {
        Mat4 {
            m00: 1,
            m01: 0,
            m02: 0,
            m03: 0,
            m10: 0,
            m11: 1,
            m12: 0,
            m13: 0,
            m20: 0,
            m21: 0,
            m22: 1,
            m23: 0,
            m30: 0,
            m31: 0,
            m32: 0,
            m33: 1,
        }
    }

    pub open spec fn one() -> Mat4 {
        Mat4 {
            m00: 1,
            m01: 1,
            m02: 1,
            m03: 1,
            m10: 1,
            m11: 1,
            m12: 1,
            m13: 1,
            m20: 1,
            m21: 1,
            m22: 1,
            m23: 1,
            m30: 1,
            m31: 1,
            m32: 1,
            m33: 1,
        }
    }

    /// The identity with `t` in the first three rows of the last column.
    pub open spec fn translation(t: Vec3) -> Mat4 {
        Mat4 {
            m00: 1,
            m01: 0,
            m02: 0,
            m03: t.x,
            m10: 0,
            m11: 1,
            m12: 0,
            m13: t.y,
            m20: 0,
            m21: 0,
            m22: 1,
            m23: t.z,
            m30: 0,
            m31: 0,
            m32: 0,
            m33: 1,
        }
    }

    /// The diagonal scale matrix with per-axis factors and a unit last entry.
    pub open spec fn scaling(s: Vec3) -> Mat4 {
        Mat4 {
            m00: s.x,
            m01: 0,
            m02: 0,
            m03: 0,
            m10: 0,
            m11: s.y,
            m12: 0,
            m13: 0,
            m20: 0,
            m21: 0,
            m22: s.z,
            m23: 0,
            m30: 0,
            m31: 0,
            m32: 0,
            m33: 1,
        }
    }

    /// The entry at row-major index `i` (row `i / 4`, column `i % 4`).
    pub open spec fn idx(self, i: int) -> int {
        if i == 0 {
            self.m00
        } else if i == 1 {
            self.m01
        } else if i == 2 {
            self.m02
        } else if i == 3 {
            self.m03
        } else if i == 4 {
            self.m10
        } else if i == 5 {
            self.m11
        } else if i == 6 {
            self.m12
        } else if i == 7 {
            self.m13
        } else if i == 8 {
            self.m20
        } else if i == 9 {
            self.m21
        } else if i == 10 {
            self.m22
        } else if i == 11 {
            self.m23
        } else if i == 12 {
            self.m30
        } else if i == 13 {
            self.m31
        } else if i == 14 {
            self.m32
        } else {
            self.m33
        }
    }

    pub open spec fn add(self, other: Mat4) -> Mat4 {
        Mat4 {
            m00: self.m00 + other.m00,
            m01: self.m01 + other.m01,
            m02: self.m02 + other.m02,
            m03: self.m03 + other.m03,
            m10: self.m10 + other.m10,
            m11: self.m11 + other.m11,
            m12: self.m12 + other.m12,
            m13: self.m13 + other.m13,
            m20: self.m20 + other.m20,
            m21: self.m21 + other.m21,
            m22: self.m22 + other.m22,
            m23: self.m23 + other.m23,
            m30: self.m30 + other.m30,
            m31: self.m31 + other.m31,
            m32: self.m32 + other.m32,
            m33: self.m33 + other.m33,
        }
    }

    pub open spec fn sub(self, other: Mat4) -> Mat4 {
        Mat4 {
            m00: self.m00 - other.m00,
            m01: self.m01 - other.m01,
            m02: self.m02 - other.m02,
            m03: self.m03 - other.m03,
            m10: self.m10 - other.m10,
            m11: self.m11 - other.m11,
            m12: self.m12 - other.m12,
            m13: self.m13 - other.m13,
            m20: self.m20 - other.m20,
            m21: self.m21 - other.m21,
            m22: self.m22 - other.m22,
            m23: self.m23 - other.m23,
            m30: self.m30 - other.m30,
            m31: self.m31 - other.m31,
            m32: self.m32 - other.m32,
            m33: self.m33 - other.m33,
        }
    }

    /// Every entry multiplied by `s`.
    pub open spec fn scale(self, s: int) -> Mat4 {
        Mat4 {
            m00: self.m00 * s,
            m01: self.m01 * s,
            m02: self.m02 * s,
            m03: self.m03 * s,
            m10: self.m10 * s,
            m11: self.m11 * s,
            m12: self.m12 * s,
            m13: self.m13 * s,
            m20: self.m20 * s,
            m21: self.m21 * s,
            m22: self.m22 * s,
            m23: self.m23 * s,
            m30: self.m30 * s,
            m31: self.m31 * s,
            m32: self.m32 * s,
            m33: self.m33 * s,
        }
    }

    /// The standard row-by-column matrix product.
    pub open spec fn mul(self, other: Mat4) -> Mat4 {
        Mat4 {
            m00: self.m00 * other.m00 + self.m01 * other.m10 + self.m02 * other.m20 + self.m03
                * other.m30,
            m01: self.m00 * other.m01 + self.m01 * other.m11 + self.m02 * other.m21 + self.m03
                * other.m31,
            m02: self.m00 * other.m02 + self.m01 * other.m12 + self.m02 * other.m22 + self.m03
                * other.m32,
            m03: self.m00 * other.m03 + self.m01 * other.m13 + self.m02 * other.m23 + self.m03
                * other.m33,
            m10: self.m10 * other.m00 + self.m11 * other.m10 + self.m12 * other.m20 + self.m13
                * other.m30,
            m11: self.m10 * other.m01 + self.m11 * other.m11 + self.m12 * other.m21 + self.m13
                * other.m31,
            m12: self.m10 * other.m02 + self.m11 * other.m12 + self.m12 * other.m22 + self.m13
                * other.m32,
            m13: self.m10 * other.m03 + self.m11 * other.m13 + self.m12 * other.m23 + self.m13
                * other.m33,
            m20: self.m20 * other.m00 + self.m21 * other.m10 + self.m22 * other.m20 + self.m23
                * other.m30,
            m21: self.m20 * other.m01 + self.m21 * other.m11 + self.m22 * other.m21 + self.m23
                * other.m31,
            m22: self.m20 * other.m02 + self.m21 * other.m12 + self.m22 * other.m22 + self.m23
                * other.m32,
            m23: self.m20 * other.m03 + self.m21 * other.m13 + self.m22 * other.m23 + self.m23
                * other.m33,
            m30: self.m30 * other.m00 + self.m31 * other.m10 + self.m32 * other.m20 + self.m33
                * other.m30,
            m31: self.m30 * other.m01 + self.m31 * other.m11 + self.m32 * other.m21 + self.m33
                * other.m31,
            m32: self.m30 * other.m02 + self.m31 * other.m12 + self.m32 * other.m22 + self.m33
                * other.m32,
            m33: self.m30 * other.m03 + self.m31 * other.m13 + self.m32 * other.m23 + self.m33
                * other.m33,
        }
    }

    pub open spec fn transpose(self) -> Mat4 {
        Mat4 {
            m00: self.m00,
            m01: self.m10,
            m02: self.m20,
            m03: self.m30,
            m10: self.m01,
            m11: self.m11,
            m12: self.m21,
            m13: self.m31,
            m20: self.m02,
            m21: self.m12,
            m22: self.m22,
            m23: self.m32,
            m30: self.m03,
            m31: self.m13,
            m32: self.m23,
            m33: self.m33,
        }
    }

    /// The matrix applied to a homogeneous column vector.
    pub open spec fn transform(self, v: Vec4) -> Vec4 {
        Vec4 {
            x: self.m00 * v.x + self.m01 * v.y + self.m02 * v.z + self.m03 * v.w,
            y: self.m10 * v.x + self.m11 * v.y + self.m12 * v.z + self.m13 * v.w,
            z: self.m20 * v.x + self.m21 * v.y + self.m22 * v.z + self.m23 * v.w,
            w: self.m30 * v.x + self.m31 * v.y + self.m32 * v.z + self.m33 * v.w,
        }
    }

    /// Every entry lies within `[-b, b]`.
    pub open spec fn in_limit(self, b: int) -> bool {
        &&& -b <= self.m00 <= b
        &&& -b <= self.m01 <= b
        &&& -b <= self.m02 <= b
        &&& -b <= self.m03 <= b
        &&& -b <= self.m10 <= b
        &&& -b <= self.m11 <= b
        &&& -b <= self.m12 <= b
        &&& -b <= self.m13 <= b
        &&& -b <= self.m20 <= b
        &&& -b <= self.m21 <= b
        &&& -b <= self.m22 <= b
        &&& -b <= self.m23 <= b
        &&& -b <= self.m30 <= b
        &&& -b <= self.m31 <= b
        &&& -b <= self.m32 <= b
        &&& -b <= self.m33 <= b
    }
}

/// A 4x4 row-major matrix of `i64` entries, `mRC` holding row `R`, column `C`.
#[derive(Clone, Debug, PartialEq, Eq, Structural)]
pub struct Matrix4f {
    pub m00: i64,
    pub m01: i64,
    pub m02: i64,
    pub m03: i64,
    pub m10: i64,
    pub m11: i64,
    pub m12: i64,
    pub m13: i64,
    pub m20: i64,
    pub m21: i64,
    pub m22: i64,
    pub m23: i64,
    pub m30: i64,
    pub m31: i64,
    pub m32: i64,
    pub m33: i64,
}

impl View for Matrix4f {
    type V = Mat4;

    open spec fn view(&self) -> Mat4 {
        Mat4 {
            m00: self.m00 as int,
            m01: self.m01 as int,
            m02: self.m02 as int,
            m03: self.m03 as int,
            m10: self.m10 as int,
            m11: self.m11 as int,
            m12: self.m12 as int,
            m13: self.m13 as int,
            m20: self.m20 as int,
            m21: self.m21 as int,
            m22: self.m22 as int,
            m23: self.m23 as int,
            m30: self.m30 as int,
            m31: self.m31 as int,
            m32: self.m32 as int,
            m33: self.m33 as int,
        }
    }
}

impl Default for Matrix4f {
    /// The identity matrix.
    fn default() -> (r: Self)
        ensures
            r@ == Mat4::identity(),
    {
        Matrix4f::identity()
    }
}

impl Matrix4f {
    /// Builds a matrix from its entries in row-major order.
    #[allow(clippy::too_many_arguments)]
    pub fn new(
        m00: i64,
        m01: i64,
        m02: i64,
        m03: i64,
        m10: i64,
        m11: i64,
        m12: i64,
        m13: i64,
        m20: i64,
        m21: i64,
        m22: i64,
        m23: i64,
        m30: i64,
        m31: i64,
        m32: i64,
        m33: i64,
    ) -> (r: Self)
        ensures
            r@ == (Mat4 {
                m00: m00 as int,
                m01: m01 as int,
                m02: m02 as int,
                m03: m03 as int,
                m10: m10 as int,
                m11: m11 as int,
                m12: m12 as int,
                m13: m13 as int,
                m20: m20 as int,
                m21: m21 as int,
                m22: m22 as int,
                m23: m23 as int,
                m30: m30 as int,
                m31: m31 as int,
                m32: m32 as int,
                m33: m33 as int,
            }),
    {
        Matrix4f {
            m00,
            m01,
            m02,
            m03,
            m10,
            m11,
            m12,
            m13,
            m20,
            m21,
            m22,
            m23,
            m30,
            m31,
            m32,
            m33,
        }
    }

    pub fn one() -> (r: Self)
        ensures
            r@ == Mat4::one(),
    {
        Matrix4f {
            m00: 1,
            m01: 1,
            m02: 1,
            m03: 1,
            m10: 1,
            m11: 1,
            m12: 1,
            m13: 1,
            m20: 1,
            m21: 1,
            m22: 1,
            m23: 1,
            m30: 1,
            m31: 1,
            m32: 1,
            m33: 1,
        }
    }

    /// The identity: 1 at row-major indices 0, 5, 10 and 15, 0 elsewhere.
    pub fn identity() -> (r: Self)
        ensures
            r@ == Mat4::identity(),
            forall|i: int|
                0 <= i < 16 ==> r@.idx(i) == if i == 0 || i == 5 || i == 10 || i == 15 {
                    1int
                } else {
                    0int
                },
    {
        Matrix4f {
            m00: 1,
            m01: 0,
            m02: 0,
            m03: 0,
            m10: 0,
            m11: 1,
            m12: 0,
            m13: 0,
            m20: 0,
            m21: 0,
            m22: 1,
            m23: 0,
            m30: 0,
            m31: 0,
            m32: 0,
            m33: 1,
        }
    }

    /// The entry at row-major index `i`.
    pub fn data(&self, i: usize) -> (r: i64)
        requires
            i < 16,
        ensures
            r == self@.idx(i as int),
    {
        if i == 0 {
            self.m00
        } else if i == 1 {
            self.m01
        } else if i == 2 {
            self.m02
        } else if i == 3 {
            self.m03
        } else if i == 4 {
            self.m10
        } else if i == 5 {
            self.m11
        } else if i == 6 {
            self.m12
        } else if i == 7 {
            self.m13
        } else if i == 8 {
            self.m20
        } else if i == 9 {
            self.m21
        } else if i == 10 {
            self.m22
        } else if i == 11 {
            self.m23
        } else if i == 12 {
            self.m30
        } else if i == 13 {
            self.m31
        } else if i == 14 {
            self.m32
        } else {
            self.m33
        }
    }

    /// Every entry multiplied by `s`.
    pub fn scale(&self, s: i64) -> (r: Self)
        requires
            self@.in_limit(LIMIT_MUL as int),
            -LIMIT_MUL <= s <= LIMIT_MUL,
        ensures
            r@ == self@.scale(s as int),
    {
        Matrix4f {
            m00: prod_mul(self.m00, s),
            m01: prod_mul(self.m01, s),
            m02: prod_mul(self.m02, s),
            m03: prod_mul(self.m03, s),
            m10: prod_mul(self.m10, s),
            m11: prod_mul(self.m11, s),
            m12: prod_mul(self.m12, s),
            m13: prod_mul(self.m13, s),
            m20: prod_mul(self.m20, s),
            m21: prod_mul(self.m21, s),
            m22: prod_mul(self.m22, s),
            m23: prod_mul(self.m23, s),
            m30: prod_mul(self.m30, s),
            m31: prod_mul(self.m31, s),
            m32: prod_mul(self.m32, s),
            m33: prod_mul(self.m33, s),
        }
    }

    /// Swaps entry (i, j) with entry (j, i).
    pub fn transpose(&self) -> (r: Self)
        ensures
            r@ == self@.transpose(),
    {
        Matrix4f {
            m00: self.m00,
            m01: self.m10,
            m02: self.m20,
            m03: self.m30,
            m10: self.m01,
            m11: self.m11,
            m12: self.m21,
            m13: self.m31,
            m20: self.m02,
            m21: self.m12,
            m22: self.m22,
            m23: self.m32,
            m30: self.m03,
            m31: self.m13,
            m32: self.m23,
            m33: self.m33,
        }
    }

    /// The matrix applied to a homogeneous column vector.
    pub fn transform(&self, other: Vector4f) -> (r: Vector4f)
        requires
            self@.in_limit(LIMIT_MUL as int),
            other@.in_limit(LIMIT_MUL as int),
        ensures
            r@ == self@.transform(other@),
    {
        Vector4f {
            x: prod_mul(self.m00, other.x) + prod_mul(self.m01, other.y) + prod_mul(
                self.m02,
                other.z,
            ) + prod_mul(self.m03, other.w),
            y: prod_mul(self.m10, other.x) + prod_mul(self.m11, other.y) + prod_mul(
                self.m12,
                other.z,
            ) + prod_mul(self.m13, other.w),
            z: prod_mul(self.m20, other.x) + prod_mul(self.m21, other.y) + prod_mul(
                self.m22,
                other.z,
            ) + prod_mul(self.m23, other.w),
            w: prod_mul(self.m30, other.x) + prod_mul(self.m31, other.y) + prod_mul(
                self.m32,
                other.z,
            ) + prod_mul(self.m33, other.w),
        }
    }

    /// The identity with `t` in the first three rows of the last column.
    pub fn from_translation(t: Vector3f) -> (r: Self)
        ensures
            r@ == Mat4::translation(t@),
    {
        Matrix4f {
            m00: 1,
            m01: 0,
            m02: 0,
            m03: t.x,
            m10: 0,
            m11: 1,
            m12: 0,
            m13: t.y,
            m20: 0,
            m21: 0,
            m22: 1,
            m23: t.z,
            m30: 0,
            m31: 0,
            m32: 0,
            m33: 1,
        }
    }

    /// The uniform diagonal scale matrix with a unit last entry.
    pub fn from_scale(s: i64) -> (r: Self)
        ensures
            r@ == Mat4::scaling(Vec3 { x: s as int, y: s as int, z: s as int }),
    {
        Matrix4f {
            m00: s,
            m01: 0,
            m02: 0,
            m03: 0,
            m10: 0,
            m11: s,
            m12: 0,
            m13: 0,
            m20: 0,
            m21: 0,
            m22: s,
            m23: 0,
            m30: 0,
            m31: 0,
            m32: 0,
            m33: 1,
        }
    }

    /// The per-axis diagonal scale matrix with a unit last entry.
    pub fn from_scale_vec(s: Vector3f) -> (r: Self)
        ensures
            r@ == Mat4::scaling(s@),
    {
        Matrix4f {
            m00: s.x,
            m01: 0,
            m02: 0,
            m03: 0,
            m10: 0,
            m11: s.y,
            m12: 0,
            m13: 0,
            m20: 0,
            m21: 0,
            m22: s.z,
            m23: 0,
            m30: 0,
            m31: 0,
            m32: 0,
            m33: 1,
        }
    }

    pub fn add(self, other: Self) -> (r: Self)
        requires
            self@.in_limit(LIMIT_ADD as int),
            other@.in_limit(LIMIT_ADD as int),
        ensures
            r@ == self@.add(other@),
    {
        Matrix4f {
            m00: self.m00 + other.m00,
            m01: self.m01 + other.m01,
            m02: self.m02 + other.m02,
            m03: self.m03 + other.m03,
            m10: self.m10 + other.m10,
            m11: self.m11 + other.m11,
            m12: self.m12 + other.m12,
            m13: self.m13 + other.m13,
            m20: self.m20 + other.m20,
            m21: self.m21 + other.m21,
            m22: self.m22 + other.m22,
            m23: self.m23 + other.m23,
            m30: self.m30 + other.m30,
            m31: self.m31 + other.m31,
            m32: self.m32 + other.m32,
            m33: self.m33 + other.m33,
        }
    }

    pub fn add_assign(&mut self, other: Self)
        requires
            old(self)@.in_limit(LIMIT_ADD as int),
            other@.in_limit(LIMIT_ADD as int),
        ensures
            final(self)@ == old(self)@.add(other@),
    {
        *self = Matrix4f {
            m00: self.m00 + other.m00,
            m01: self.m01 + other.m01,
            m02: self.m02 + other.m02,
            m03: self.m03 + other.m03,
            m10: self.m10 + other.m10,
            m11: self.m11 + other.m11,
            m12: self.m12 + other.m12,
            m13: self.m13 + other.m13,
            m20: self.m20 + other.m20,
            m21: self.m21 + other.m21,
            m22: self.m22 + other.m22,
            m23: self.m23 + other.m23,
            m30: self.m30 + other.m30,
            m31: self.m31 + other.m31,
            m32: self.m32 + other.m32,
            m33: self.m33 + other.m33,
        };
    }

    pub fn sub(self, other: Self) -> (r: Self)
        requires
            self@.in_limit(LIMIT_ADD as int),
            other@.in_limit(LIMIT_ADD as int),
        ensures
            r@ == self@.sub(other@),
    {
        Matrix4f {
            m00: self.m00 - other.m00,
            m01: self.m01 - other.m01,
            m02: self.m02 - other.m02,
            m03: self.m03 - other.m03,
            m10: self.m10 - other.m10,
            m11: self.m11 - other.m11,
            m12: self.m12 - other.m12,
            m13: self.m13 - other.m13,
            m20: self.m20 - other.m20,
            m21: self.m21 - other.m21,
            m22: self.m22 - other.m22,
            m23: self.m23 - other.m23,
            m30: self.m30 - other.m30,
            m31: self.m31 - other.m31,
            m32: self.m32 - other.m32,
            m33: self.m33 - other.m33,
        }
    }

    pub fn sub_assign(&mut self, other: Self)
        requires
            old(self)@.in_limit(LIMIT_ADD as int),
            other@.in_limit(LIMIT_ADD as int),
        ensures
            final(self)@ == old(self)@.sub(other@),
    {
        *self = Matrix4f {
            m00: self.m00 - other.m00,
            m01: self.m01 - other.m01,
            m02: self.m02 - other.m02,
            m03: self.m03 - other.m03,
            m10: self.m10 - other.m10,
            m11: self.m11 - other.m11,
            m12: self.m12 - other.m12,
            m13: self.m13 - other.m13,
            m20: self.m20 - other.m20,
            m21: self.m21 - other.m21,
            m22: self.m22 - other.m22,
            m23: self.m23 - other.m23,
            m30: self.m30 - other.m30,
            m31: self.m31 - other.m31,
            m32: self.m32 - other.m32,
            m33: self.m33 - other.m33,
        };
    }

    /// The entries as rows of fixed-size arrays, row-major.
    pub fn to_rows(&self) -> (r: [[i64; 4]; 4])
        ensures
            r@[0]@ == seq![self.m00, self.m01, self.m02, self.m03],
            r@[1]@ == seq![self.m10, self.m11, self.m12, self.m13],
            r@[2]@ == seq![self.m20, self.m21, self.m22, self.m23],
            r@[3]@ == seq![self.m30, self.m31, self.m32, self.m33],
    {
        [
            [self.m00, self.m01, self.m02, self.m03],
            [self.m10, self.m11, self.m12, self.m13],
            [self.m20, self.m21, self.m22, self.m23],
            [self.m30, self.m31, self.m32, self.m33],
        ]
    }

    /// The standard row-by-column matrix product; every entry of the result,
    /// the last column included, is the dot of a row of `self` with a column
    /// of `other`.
    pub fn mul(self, other: Self) -> (r: Self)
        requires
            self@.in_limit(LIMIT_MUL as int),
            other@.in_limit(LIMIT_MUL as int),
        ensures
            r@ == self@.mul(other@),
    {
        Matrix4f {
            m00: prod_mul(self.m00, other.m00) + prod_mul(self.m01, other.m10) + prod_mul(
                self.m02,
                other.m20,
            ) + prod_mul(self.m03, other.m30),
            m01: prod_mul(self.m00, other.m01) + prod_mul(self.m01, other.m11) + prod_mul(
                self.m02,
                other.m21,
            ) + prod_mul(self.m03, other.m31),
            m02: prod_mul(self.m00, other.m02) + prod_mul(self.m01, other.m12) + prod_mul(
                self.m02,
                other.m22,
            ) + prod_mul(self.m03, other.m32),
            m03: prod_mul(self.m00, other.m03) + prod_mul(self.m01, other.m13) + prod_mul(
                self.m02,
                other.m23,
            ) + prod_mul(self.m03, other.m33),
            m10: prod_mul(self.m10, other.m00) + prod_mul(self.m11, other.m10) + prod_mul(
                self.m12,
                other.m20,
            ) + prod_mul(self.m13, other.m30),
            m11: prod_mul(self.m10, other.m01) + prod_mul(self.m11, other.m11) + prod_mul(
                self.m12,
                other.m21,
            ) + prod_mul(self.m13, other.m31),
            m12: prod_mul(self.m10, other.m02) + prod_mul(self.m11, other.m12) + prod_mul(
                self.m12,
                other.m22,
            ) + prod_mul(self.m13, other.m32),
            m13: prod_mul(self.m10, other.m03) + prod_mul(self.m11, other.m13) + prod_mul(
                self.m12,
                other.m23,
            ) + prod_mul(self.m13, other.m33),
            m20: prod_mul(self.m20, other.m00) + prod_mul(self.m21, other.m10) + prod_mul(
                self.m22,
                other.m20,
            ) + prod_mul(self.m23, other.m30),
            m21: prod_mul(self.m20, other.m01) + prod_mul(self.m21, other.m11) + prod_mul(
                self.m22,
                other.m21,
            ) + prod_mul(self.m23, other.m31),
            m22: prod_mul(self.m20, other.m02) + prod_mul(self.m21, other.m12) + prod_mul(
                self.m22,
                other.m22,
            ) + prod_mul(self.m23, other.m32),
            m23: prod_mul(self.m20, other.m03) + prod_mul(self.m21, other.m13) + prod_mul(
                self.m22,
                other.m23,
            ) + prod_mul(self.m23, other.m33),
            m30: prod_mul(self.m30, other.m00) + prod_mul(self.m31, other.m10) + prod_mul(
                self.m32,
                other.m20,
            ) + prod_mul(self.m33, other.m30),
            m31: prod_mul(self.m30, other.m01) + prod_mul(self.m31, other.m11) + prod_mul(
                self.m32,
                other.m21,
            ) + prod_mul(self.m33, other.m31),
            m32: prod_mul(self.m30, other.m02) + prod_mul(self.m31, other.m12) + prod_mul(
                self.m32,
                other.m22,
            ) + prod_mul(self.m33, other.m32),
            m33: prod_mul(self.m30, other.m03) + prod_mul(self.m31, other.m13) + prod_mul(
                self.m32,
                other.m23,
            ) + prod_mul(self.m33, other.m33),
        }
    }

    pub fn mul_assign(&mut self, other: Self)
        requires
            old(self)@.in_limit(LIMIT_MUL as int),
            other@.in_limit(LIMIT_MUL as int),
        ensures
            final(self)@ == old(self)@.mul(other@),
    {
        *self = Matrix4f {
            m00: prod_mul(self.m00, other.m00) + prod_mul(self.m01, other.m10) + prod_mul(
                self.m02,
                other.m20,
            ) + prod_mul(self.m03, other.m30),
            m01: prod_mul(self.m00, other.m01) + prod_mul(self.m01, other.m11) + prod_mul(
                self.m02,
                other.m21,
            ) + prod_mul(self.m03, other.m31),
            m02: prod_mul(self.m00, other.m02) + prod_mul(self.m01, other.m12) + prod_mul(
                self.m02,
                other.m22,
            ) + prod_mul(self.m03, other.m32),
            m03: prod_mul(self.m00, other.m03) + prod_mul(self.m01, other.m13) + prod_mul(
                self.m02,
                other.m23,
            ) + prod_mul(self.m03, other.m33),
            m10: prod_mul(self.m10, other.m00) + prod_mul(self.m11, other.m10) + prod_mul(
                self.m12,
                other.m20,
            ) + prod_mul(self.m13, other.m30),
            m11: prod_mul(self.m10, other.m01) + prod_mul(self.m11, other.m11) + prod_mul(
                self.m12,
                other.m21,
            ) + prod_mul(self.m13, other.m31),
            m12: prod_mul(self.m10, other.m02) + prod_mul(self.m11, other.m12) + prod_mul(
                self.m12,
                other.m22,
            ) + prod_mul(self.m13, other.m32),
            m13: prod_mul(self.m10, other.m03) + prod_mul(self.m11, other.m13) + prod_mul(
                self.m12,
                other.m23,
            ) + prod_mul(self.m13, other.m33),
            m20: prod_mul(self.m20, other.m00) + prod_mul(self.m21, other.m10) + prod_mul(
                self.m22,
                other.m20,
            ) + prod_mul(self.m23, other.m30),
            m21: prod_mul(self.m20, other.m01) + prod_mul(self.m21, other.m11) + prod_mul(
                self.m22,
                other.m21,
            ) + prod_mul(self.m23, other.m31),
            m22: prod_mul(self.m20, other.m02) + prod_mul(self.m21, other.m12) + prod_mul(
                self.m22,
                other.m22,
            ) + prod_mul(self.m23, other.m32),
            m23: prod_mul(self.m20, other.m03) + prod_mul(self.m21, other.m13) + prod_mul(
                self.m22,
                other.m23,
            ) + prod_mul(self.m23, other.m33),
            m30: prod_mul(self.m30, other.m00) + prod_mul(self.m31, other.m10) + prod_mul(
                self.m32,
                other.m20,
            ) + prod_mul(self.m33, other.m30),
            m31: prod_mul(self.m30, other.m01) + prod_mul(self.m31, other.m11) + prod_mul(
                self.m32,
                other.m21,
            ) + prod_mul(self.m33, other.m31),
            m32: prod_mul(self.m30, other.m02) + prod_mul(self.m31, other.m12) + prod_mul(
                self.m32,
                other.m22,
            ) + prod_mul(self.m33, other.m32),
            m33: prod_mul(self.m30, other.m03) + prod_mul(self.m31, other.m13) + prod_mul(
                self.m32,
                other.m23,
            ) + prod_mul(self.m33, other.m33),
        };
    }
}

/// Transposing a matrix twice gives the matrix back.
pub proof fn lemma_transpose_involutive(m: Mat4)
    ensures
        m.transpose().transpose() == m,
{
}

/// The identity matrix transforms every homogeneous vector to itself.
pub proof fn lemma_identity_transform(v: Vec4)
    ensures
        Mat4::identity().transform(v) == v,
{
}

} // verus!
