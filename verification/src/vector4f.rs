//! A 4-component vector with exact integer components.

use vstd::prelude::*;

use crate::scalar::isqrt64;
use crate::scalar::prod_mul;
use crate::scalar::LIMIT_ADD;
use crate::scalar::LIMIT_MUL;
use crate::vector3f::Vec3;
use crate::vector3f::Vector3f;

verus! {

/// The mathematical model of a 4-component vector: unbounded integers.
pub ghost struct Vec4 {
    pub x: int,
    pub y: int,
    pub z: int,
    pub w: int,
}

impl Vec4 {
    pub open spec fn add(self, other: Vec4) -> Vec4 {
        Vec4 { x: self.x + other.x, y: self.y + other.y, z: self.z + other.z, w: self.w + other.w }
    }

    pub open spec fn sub(self, other: Vec4) -> Vec4 {
        Vec4 { x: self.x - other.x, y: self.y - other.y, z: self.z - other.z, w: self.w - other.w }
    }

    pub open spec fn scale(self, s: int) -> Vec4 {
        Vec4 { x: self.x * s, y: self.y * s, z: self.z * s, w: self.w * s }
    }

    pub open spec fn dot(self, other: Vec4) -> int {
        self.x * other.x + self.y * other.y + self.z * other.z + self.w * other.w
    }

    pub open spec fn magnitude_squared(self) -> int {
        self.dot(self)
    }

    /// The first three components.
    pub open spec fn truncate(self) -> Vec3 {
        Vec3 { x: self.x, y: self.y, z: self.z }
    }

    /// Every component lies within `[-b, b]`.
    pub open spec fn in_limit(self, b: int) -> bool {
        &&& -b <= self.x <= b
        &&& -b <= self.y <= b
        &&& -b <= self.z <= b
        &&& -b <= self.w <= b
    }
}

/// A 4-component vector of `i64` components.
#[derive(Clone, Copy, Debug, PartialEq, Eq, Structural)]
pub struct Vector4f {
    pub x: i64,
    pub y: i64,
    pub z: i64,
    pub w: i64,
}

impl View for Vector4f {
    type V = Vec4;

    open spec fn view(&self) -> Vec4 {
        Vec4 { x: self.x as int, y: self.y as int, z: self.z as int, w: self.w as int }
    }
}

impl Default for Vector4f {
    /// The zero vector.
    fn default() -> (r: Self)
        ensures
            r@ == (Vec4 { x: 0, y: 0, z: 0, w: 0 }),
    {
        Vector4f::zero()
    }
}

impl Vector4f {
    pub fn new(x: i64, y: i64, z: i64, w: i64) -> (r: Self)
        ensures
            r@ == (Vec4 { x: x as int, y: y as int, z: z as int, w: w as int }),
    {
        Vector4f { x, y, z, w }
    }

    pub fn zero() -> (r: Self)
        ensures
            r@ == (Vec4 { x: 0, y: 0, z: 0, w: 0 }),
    {
        Vector4f { x: 0, y: 0, z: 0, w: 0 }
    }

    pub fn one() -> (r: Self)
        ensures
            r@ == (Vec4 { x: 1, y: 1, z: 1, w: 1 }),
    {
        Vector4f { x: 1, y: 1, z: 1, w: 1 }
    }

    pub fn dot(&self, other: Self) -> (r: i64)
        requires
            self@.in_limit(LIMIT_MUL as int),
            other@.in_limit(LIMIT_MUL as int),
        ensures
            r == self@.dot(other@),
    {
        prod_mul(self.x, other.x) + prod_mul(self.y, other.y) + prod_mul(self.z, other.z)
            + prod_mul(self.w, other.w)
    }

    pub fn magnitude_squared(&self) -> (r: i64)
        requires
            self@.in_limit(LIMIT_MUL as int),
        ensures
            r == self@.magnitude_squared(),
            r >= 0,
    {
        proof {
            crate::scalar::lemma_square_nonneg(self.x as int);
            crate::scalar::lemma_square_nonneg(self.y as int);
            crate::scalar::lemma_square_nonneg(self.z as int);
            crate::scalar::lemma_square_nonneg(self.w as int);
        }
        prod_mul(self.x, self.x) + prod_mul(self.y, self.y) + prod_mul(self.z, self.z)
            + prod_mul(self.w, self.w)
    }

    /// The length of the vector, rounded toward zero.
    pub fn magnitude(&self) -> (r: i64)
        requires
            self@.in_limit(LIMIT_MUL as int),
        ensures
            0 <= r,
            r * r <= self@.magnitude_squared(),
            self@.magnitude_squared() < (r + 1) * (r + 1),
    {
        let m: i64 = self.magnitude_squared();
        isqrt64(m)
    }

    pub fn scale(&self, s: i64) -> (r: Self)
        requires
            self@.in_limit(LIMIT_MUL as int),
            -LIMIT_MUL <= s <= LIMIT_MUL,
        ensures
            r@ == self@.scale(s as int),
    {
        Vector4f {
            x: prod_mul(self.x, s),
            y: prod_mul(self.y, s),
            z: prod_mul(self.z, s),
            w: prod_mul(self.w, s),
        }
    }

    /// The first three components.
    pub fn truncate(&self) -> (r: Vector3f)
        ensures
            r@ == self@.truncate(),
    {
        Vector3f { x: self.x, y: self.y, z: self.z }
    }

    pub fn add(self, other: Self) -> (r: Self)
        requires
            self@.in_limit(LIMIT_ADD as int),
            other@.in_limit(LIMIT_ADD as int),
        ensures
            r@ == self@.add(other@),
    {
        Vector4f {
            x: self.x + other.x,
            y: self.y + other.y,
            z: self.z + other.z,
            w: self.w + other.w,
        }
    }

    pub fn add_assign(&mut self, other: Self)
        requires
            old(self)@.in_limit(LIMIT_ADD as int),
            other@.in_limit(LIMIT_ADD as int),
        ensures
            final(self)@ == old(self)@.add(other@),
    {
        *self = Vector4f {
            x: self.x + other.x,
            y: self.y + other.y,
            z: self.z + other.z,
            w: self.w + other.w,
        };
    }

    pub fn sub(self, other: Self) -> (r: Self)
        requires
            self@.in_limit(LIMIT_ADD as int),
            other@.in_limit(LIMIT_ADD as int),
        ensures
            r@ == self@.sub(other@),
    {
        Vector4f {
            x: self.x - other.x,
            y: self.y - other.y,
            z: self.z - other.z,
            w: self.w - other.w,
        }
    }

    pub fn sub_assign(&mut self, other: Self)
        requires
            old(self)@.in_limit(LIMIT_ADD as int),
            other@.in_limit(LIMIT_ADD as int),
        ensures
            final(self)@ == old(self)@.sub(other@),
    {
        *self = Vector4f {
            x: self.x - other.x,
            y: self.y - other.y,
            z: self.z - other.z,
            w: self.w - other.w,
        };
    }

    /// The components as a fixed-size array.
    pub fn to_array(&self) -> (r: [i64; 4])
        ensures
            r@ == seq![self.x, self.y, self.z, self.w],
    {
        [self.x, self.y, self.z, self.w]
    }
}

} // verus!
