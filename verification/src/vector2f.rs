//! A 2-component vector with exact integer components.

use vstd::prelude::*;

use crate::scalar::isqrt64;
use crate::scalar::prod_mul;
use crate::scalar::LIMIT_ADD;
use crate::scalar::LIMIT_MUL;

verus! {

/// The mathematical model of a 2-component vector: unbounded integers.
pub ghost struct Vec2 {
    pub x: int,
    pub y: int,
}

impl Vec2 {
    pub open spec fn add(self, other: Vec2) -> Vec2 {
        Vec2 { x: self.x + other.x, y: self.y + other.y }
    }

    pub open spec fn sub(self, other: Vec2) -> Vec2 {
        Vec2 { x: self.x - other.x, y: self.y - other.y }
    }

    pub open spec fn scale(self, s: int) -> Vec2 {
        Vec2 { x: self.x * s, y: self.y * s }
    }

    pub open spec fn dot(self, other: Vec2) -> int {
        self.x * other.x + self.y * other.y
    }

    pub open spec fn magnitude_squared(self) -> int {
        self.dot(self)
    }

    /// Every component lies within `[-b, b]`.
    pub open spec fn in_limit(self, b: int) -> bool {
        &&& -b <= self.x <= b
        &&& -b <= self.y <= b
    }
}

/// A 2-component vector of `i64` components.
#[derive(Clone, Copy, Debug, PartialEq, Eq, Structural)]
pub struct Vector2f {
    pub x: i64,
    pub y: i64,
}

impl View for Vector2f {
    type V = Vec2;

    open spec fn view(&self) -> Vec2 {
        Vec2 { x: self.x as int, y: self.y as int }
    }
}

impl Vector2f {
    pub fn new(x: i64, y: i64) -> (r: Self)
        ensures
            r@ == (Vec2 { x: x as int, y: y as int }),
    {
        Vector2f { x, y }
    }

    pub fn zero() -> (r: Self)
        ensures
            r@ == (Vec2 { x: 0, y: 0 }),
    {
        Vector2f { x: 0, y: 0 }
    }

    pub fn one() -> (r: Self)
        ensures
            r@ == (Vec2 { x: 1, y: 1 }),
    {
        Vector2f { x: 1, y: 1 }
    }

    pub fn dot(&self, other: Self) -> (r: i64)
        requires
            self@.in_limit(LIMIT_MUL as int),
            other@.in_limit(LIMIT_MUL as int),
        ensures
            r == self@.dot(other@),
    {
        prod_mul(self.x, other.x) + prod_mul(self.y, other.y)
    }

    pub fn magnitude_squared(&self) -> (r: i64)
        requires
            self@.in_limit(LIMIT_MUL as int),
        ensures
            r == self@.magnitude_squared(),
            r >= 0,
    {
        proof {
            crate::scalar::lemma_square_nonneg(self.x as int);
            crate::scalar::lemma_square_nonneg(self.y as int);
        }
        prod_mul(self.x, self.x) + prod_mul(self.y, self.y)
    }

    /// The length of the vector, rounded toward zero.
    pub fn magnitude(&self) -> (r: i64)
        requires
            self@.in_limit(LIMIT_MUL as int),
        ensures
            0 <= r,
            r * r <= self@.magnitude_squared(),
            self@.magnitude_squared() < (r + 1) * (r + 1),
    {
        let m: i64 = self.magnitude_squared();
        isqrt64(m)
    }

    pub fn scale(&self, s: i64) -> (r: Self)
        requires
            self@.in_limit(LIMIT_MUL as int),
            -LIMIT_MUL <= s <= LIMIT_MUL,
        ensures
            r@ == self@.scale(s as int),
    {
        Vector2f { x: prod_mul(self.x, s), y: prod_mul(self.y, s) }
    }

    pub fn add(self, other: Self) -> (r: Self)
        requires
            self@.in_limit(LIMIT_ADD as int),
            other@.in_limit(LIMIT_ADD as int),
        ensures
            r@ == self@.add(other@),
    {
        Vector2f { x: self.x + other.x, y: self.y + other.y }
    }

    pub fn add_assign(&mut self, other: Self)
        requires
            old(self)@.in_limit(LIMIT_ADD as int),
            other@.in_limit(LIMIT_ADD as int),
        ensures
            final(self)@ == old(self)@.add(other@),
    {
        *self = Vector2f { x: self.x + other.x, y: self.y + other.y };
    }

    pub fn sub(self, other: Self) -> (r: Self)
        requires
            self@.in_limit(LIMIT_ADD as int),
            other@.in_limit(LIMIT_ADD as int),
        ensures
            r@ == self@.sub(other@),
    {
        Vector2f { x: self.x - other.x, y: self.y - other.y }
    }

    /// The components as a fixed-size array.
    pub fn to_array(&self) -> (r: [i64; 2])
        ensures
            r@ == seq![self.x, self.y],
    {
        [self.x, self.y]
    }

    pub fn sub_assign(&mut self, other: Self)
        requires
            old(self)@.in_limit(LIMIT_ADD as int),
            other@.in_limit(LIMIT_ADD as int),
        ensures
            final(self)@ == old(self)@.sub(other@),
    {
        *self = Vector2f { x: self.x - other.x, y: self.y - other.y };
    }
}

} // verus!
