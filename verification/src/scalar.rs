//! Shared scalar arithmetic: the component limits under which every
//! intermediate of the matrix and vector operations fits in an `i64`,
//! overflow-safe products, and an exact integer square root.

use vstd::prelude::*;

verus! {

/// Components at most this large in magnitude keep any product of two
/// components, and sums of up to four such products, within `i64`.
pub const LIMIT_MUL: i64 = 1_000_000_000;

/// Components at most this large in magnitude keep the three-factor terms of
/// a 3x3 determinant expansion, and their sum, within `i64`.
pub const LIMIT_DET: i64 = 1_000_000;

/// Components at most this large in magnitude keep a single sum or
/// difference of two components within `i64`.
pub const LIMIT_ADD: i64 = 4_611_686_018_427_387_903;

pub(crate) proof fn lemma_abs_mul(a: int, b: int, ba: int, bb: int)
    by (nonlinear_arith)
    requires
        0 <= ba,
        0 <= bb,
        -ba <= a <= ba,
        -bb <= b <= bb,
    ensures
        -(ba * bb) <= a * b <= ba * bb,
{
}

pub(crate) proof fn lemma_mul_comm(x: int, y: int)
    by (nonlinear_arith)
    ensures
        x * y == y * x,
{
}

pub(crate) proof fn lemma_mul_sub(x: int, y: int, z: int)
    by (nonlinear_arith)
    ensures
        x * (y - z) == x * y - x * z,
{
}

pub(crate) proof fn lemma_mul_neg(x: int, y: int)
    by (nonlinear_arith)
    ensures
        x * (-y) == -(x * y),
{
}

pub(crate) proof fn lemma_mul_swap(x: int, y: int, z: int)
    by (nonlinear_arith)
    ensures
        x * (y * z) == y * (x * z),
{
}

pub(crate) proof fn lemma_one_mul(x: int)
    by (nonlinear_arith)
    ensures
        1 * x == x,
{
}

pub(crate) proof fn lemma_zero_mul(x: int)
    by (nonlinear_arith)
    ensures
        0 * x == 0,
{
}

pub(crate) proof fn lemma_square_nonneg(a: int)
    by (nonlinear_arith)
    ensures
        0 <= a * a,
{
}

/// Product of two components bounded by `LIMIT_MUL`.
pub(crate) fn prod_mul(a: i64, b: i64) -> (r: i64)
    requires
        -LIMIT_MUL <= a <= LIMIT_MUL,
        -LIMIT_MUL <= b <= LIMIT_MUL,
    ensures
        r == a * b,
        -1_000_000_000_000_000_000 <= r <= 1_000_000_000_000_000_000,
{
    proof {
        lemma_abs_mul(a as int, b as int, LIMIT_MUL as int, LIMIT_MUL as int);
    }
    a * b
}

/// Product of two components bounded by `LIMIT_DET`: a term of a 2x2 minor.
pub(crate) fn prod_det_minor(a: i64, b: i64) -> (r: i64)
    requires
        -LIMIT_DET <= a <= LIMIT_DET,
        -LIMIT_DET <= b <= LIMIT_DET,
    ensures
        r == a * b,
        -1_000_000_000_000 <= r <= 1_000_000_000_000,
{
    proof {
        lemma_abs_mul(a as int, b as int, LIMIT_DET as int, LIMIT_DET as int);
    }
    a * b
}

/// Product of a component bounded by `LIMIT_DET` with a 2x2 minor.
pub(crate) fn prod_det_outer(a: i64, m: i64) -> (r: i64)
    requires
        -LIMIT_DET <= a <= LIMIT_DET,
        -2_000_000_000_000 <= m <= 2_000_000_000_000,
    ensures
        r == a * m,
        -2_000_000_000_000_000_000 <= r <= 2_000_000_000_000_000_000,
{
    proof {
        lemma_abs_mul(a as int, m as int, LIMIT_DET as int, 2_000_000_000_000);
    }
    a * m
}

/// The integer square root of `n`, rounded toward zero.
pub fn isqrt64(n: i64) -> (r: i64)
    requires
        0 <= n,
    ensures
        0 <= r,
        r * r <= n,
        n < (r + 1) * (r + 1),
{
    let mut lo: i64 = 0;
    let mut hi: i64 = 3_037_000_500;
    assert(n < hi * hi);
    while lo + 1 < hi
        invariant
            0 <= lo < hi <= 3_037_000_500,
            lo * lo <= n,
            n < hi * hi,
        decreases hi - lo,
    {
        let mid: i64 = lo + (hi - lo) / 2;
        proof {
            lemma_abs_mul(mid as int, mid as int, 3_037_000_499, 3_037_000_499);
        }
        if mid * mid <= n {
            lo = mid;
        } else {
            hi = mid;
        }
    }
    lo
}

} // verus!
