//! A 3-component vector with exact integer components.

use vstd::prelude::*;

use crate::scalar::isqrt64;
use crate::scalar::prod_mul;
use crate::scalar::LIMIT_ADD;
use crate::scalar::LIMIT_MUL;
use crate::vector4f::Vec4;
use crate::vector4f::Vector4f;

verus! {

/// The mathematical model of a 3-component vector: unbounded integers.
pub ghost struct Vec3 {
    pub x: int,
    pub y: int,
    pub z: int,
}

impl Vec3 {
    pub open spec fn add(self, other: Vec3) -> Vec3 {
        Vec3 { x: self.x + other.x, y: self.y + other.y, z: self.z + other.z }
    }

    pub open spec fn sub(self, other: Vec3) -> Vec3 {
        Vec3 { x: self.x - other.x, y: self.y - other.y, z: self.z - other.z }
    }

    pub open spec fn scale(self, s: int) -> Vec3 {
        Vec3 { x: self.x * s, y: self.y * s, z: self.z * s }
    }

    pub open spec fn dot(self, other: Vec3) -> int {
        self.x * other.x + self.y * other.y + self.z * other.z
    }

    /// The cross product, right-handed.
    pub open spec fn cross(self, other: Vec3) -> Vec3 {
        Vec3 {
            x: self.y * other.z - self.z * other.y,
            y: self.z * other.x - self.x * other.z,
            z: self.x * other.y - self.y * other.x,
        }
    }

    pub open spec fn magnitude_squared(self) -> int {
        self.dot(self)
    }

    /// The vector extended with a fourth component.
    pub open spec fn extend(self, w: int) -> Vec4 {
        Vec4 { x: self.x, y: self.y, z: self.z, w: w }
    }

    /// Every component lies within `[-b, b]`.
    pub open spec fn in_limit(self, b: int) -> bool {
        &&& -b <= self.x <= b
        &&& -b <= self.y <= b
        &&& -b <= self.z <= b
    }
}

/// A 3-component vector of `i64` components.
#[derive(Clone, Copy, Debug, PartialEq, Eq, Structural)]
pub struct Vector3f {
    pub x: i64,
    pub y: i64,
    pub z: i64,
}

impl View for Vector3f {
    type V = Vec3;

    open spec fn view(&self) -> Vec3 {
        Vec3 { x: self.x as int, y: self.y as int, z: self.z as int }
    }
}

impl Vector3f {
    pub fn new(x: i64, y: i64, z: i64) -> (r: Self)
        ensures
            r@ == (Vec3 { x: x as int, y: y as int, z: z as int }),
    {
        Vector3f { x, y, z }
    }

    pub fn zero() -> (r: Self)
        ensures
            r@ == (Vec3 { x: 0, y: 0, z: 0 }),
    {
        Vector3f { x: 0, y: 0, z: 0 }
    }

    pub fn one() -> (r: Self)
        ensures
            r@ == (Vec3 { x: 1, y: 1, z: 1 }),
    {
        Vector3f { x: 1, y: 1, z: 1 }
    }

    pub fn dot(&self, other: Self) -> (r: i64)
        requires
            self@.in_limit(LIMIT_MUL as int),
            other@.in_limit(LIMIT_MUL as int),
        ensures
            r == self@.dot(other@),
    {
        prod_mul(self.x, other.x) + prod_mul(self.y, other.y) + prod_mul(self.z, other.z)
    }

    /// The cross product, right-handed.
    pub fn cross(&self, other: Self) -> (r: Self)
        requires
            self@.in_limit(LIMIT_MUL as int),
            other@.in_limit(LIMIT_MUL as int),
        ensures
            r@ == self@.cross(other@),
    {
        let x: i64 = prod_mul(self.y, other.z) - prod_mul(self.z, other.y);
        let y: i64 = prod_mul(self.z, other.x) - prod_mul(self.x, other.z);
        let z: i64 = prod_mul(self.x, other.y) - prod_mul(self.y, other.x);
        Vector3f { x, y, z }
    }

    pub fn magnitude_squared(&self) -> (r: i64)
        requires
            self@.in_limit(LIMIT_MUL as int),
        ensures
            r == self@.magnitude_squared(),
            r >= 0,
    {
        proof {
            crate::scalar::lemma_square_nonneg(self.x as int);
            crate::scalar::lemma_square_nonneg(self.y as int);
            crate::scalar::lemma_square_nonneg(self.z as int);
        }
        prod_mul(self.x, self.x) + prod_mul(self.y, self.y) + prod_mul(self.z, self.z)
    }

    /// The length of the vector, rounded toward zero.
    pub fn magnitude(&self) -> (r: i64)
        requires
            self@.in_limit(LIMIT_MUL as int),
        ensures
            0 <= r,
            r * r <= self@.magnitude_squared(),
            self@.magnitude_squared() < (r + 1) * (r + 1),
    {
        let m: i64 = self.magnitude_squared();
        isqrt64(m)
    }

    pub fn scale(&self, s: i64) -> (r: Self)
        requires
            self@.in_limit(LIMIT_MUL as int),
            -LIMIT_MUL <= s <= LIMIT_MUL,
        ensures
            r@ == self@.scale(s as int),
    {
        Vector3f { x: prod_mul(self.x, s), y: prod_mul(self.y, s), z: prod_mul(self.z, s) }
    }

    /// The vector extended with a fourth component `w`.
    pub fn extend(&self, w: i64) -> (r: Vector4f)
        ensures
            r@ == self@.extend(w as int),
    {
        Vector4f { x: self.x, y: self.y, z: self.z, w }
    }

    pub fn add(self, other: Self) -> (r: Self)
        requires
            self@.in_limit(LIMIT_ADD as int),
            other@.in_limit(LIMIT_ADD as int),
        ensures
            r@ == self@.add(other@),
    {
        Vector3f { x: self.x + other.x, y: self.y + other.y, z: self.z + other.z }
    }

    pub fn add_assign(&mut self, other: Self)
        requires
            old(self)@.in_limit(LIMIT_ADD as int),
            other@.in_limit(LIMIT_ADD as int),
        ensures
            final(self)@ == old(self)@.add(other@),
    {
        *self = Vector3f { x: self.x + other.x, y: self.y + other.y, z: self.z + other.z };
    }

    pub fn sub(self, other: Self) -> (r: Self)
        requires
            self@.in_limit(LIMIT_ADD as int),
            other@.in_limit(LIMIT_ADD as int),
        ensures
            r@ == self@.sub(other@),
    {
        Vector3f { x: self.x - other.x, y: self.y - other.y, z: self.z - other.z }
    }

    pub fn sub_assign(&mut self, other: Self)
        requires
            old(self)@.in_limit(LIMIT_ADD as int),
            other@.in_limit(LIMIT_ADD as int),
        ensures
            final(self)@ == old(self)@.sub(other@),
    {
        *self = Vector3f { x: self.x - other.x, y: self.y - other.y, z: self.z - other.z };
    }

    /// The components as a fixed-size array.
    pub fn to_array(&self) -> (r: [i64; 3])
        ensures
            r@ == seq![self.x, self.y, self.z],
    {
        [self.x, self.y, self.z]
    }
}

} // verus!
