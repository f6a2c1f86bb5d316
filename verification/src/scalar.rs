//! Fixed-point scalars.
//!
//! A scalar is a 32-bit signed integer that stands for its value divided by
//! `ONE`: sixteen bits before the binary point and sixteen after it. Products
//! are formed exactly in 128 bits, divided by `ONE` rounding toward zero, and
//! saturated when they are stored. Rounding toward zero commutes with negation,
//! so that a result and its opposite are stored as opposites.
use crate::arith::lemma_mul_signs;
use vstd::arithmetic::div_mod::lemma_div_multiples_vanish;
use vstd::prelude::*;

verus! {

/// A fixed-point number: the stored integer is the value times `ONE`.
pub type Scalar = i32;

/// The scalar one.
pub const ONE: Scalar = 65536;

/// A quarter turn in radians, `π / 2`, rounded to the nearest scalar.
pub const FRAC_PI_2: Scalar = 102944;

/// The integer `x` brought into the range of a scalar.
pub open spec fn saturate(x: int) -> int {
    if x < i32::MIN as int {
        i32::MIN as int
    } else if x > i32::MAX as int {
        i32::MAX as int
    } else {
        x
    }
}

/// The quotient of `x` by a divisor that is not zero, rounded toward zero.
pub open spec fn quotient(x: int, d: int) -> int {
    if d > 0 {
        if x >= 0 {
            x / d
        } else {
            -((-x) / d)
        }
    } else {
        if x >= 0 {
            -(x / (-d))
        } else {
            (-x) / (-d)
        }
    }
}

/// The scalar stored for an exact product of two scalars: divided by `ONE`,
/// rounded toward zero, saturated.
pub open spec fn stored(x: int) -> int {
    saturate(quotient(x, ONE as int))
}

/// The scalar stored for an exact product of three scalars.
pub open spec fn stored_twice(x: int) -> int {
    saturate(quotient(x, ONE as int * ONE as int))
}

/// The scalar `-x`, saturated: the most negative scalar has no opposite.
pub open spec fn negated(x: Scalar) -> Scalar {
    if x == i32::MIN {
        i32::MAX
    } else {
        (-x) as i32
    }
}

/// `r` is the integer square root of `x`, rounded down.
pub open spec fn is_floor_sqrt(x: int, r: int) -> bool {
    0 <= r && r * r <= x < (r + 1) * (r + 1)
}

/// The integer square root of `x`, rounded down (zero for negative `x`, which
/// has none).
pub open spec fn floor_sqrt(x: int) -> int {
    if exists|r: int| is_floor_sqrt(x, r) {
        choose|r: int| is_floor_sqrt(x, r)
    } else {
        0
    }
}

/// Squaring is strictly increasing on the non-negative integers.
pub proof fn lemma_square_increasing(a: int, b: int)
    by (nonlinear_arith)
    requires
        0 <= a < b,
    ensures
        (a + 1) * (a + 1) <= b * b,
{
}

/// There is only one rounded-down square root.
pub proof fn lemma_floor_sqrt_unique(x: int, r: int)
    requires
        is_floor_sqrt(x, r),
    ensures
        floor_sqrt(x) == r,
{
    let c = floor_sqrt(x);
    assert(is_floor_sqrt(x, c));
    if c < r {
        lemma_square_increasing(c, r);
    } else if r < c {
        lemma_square_increasing(r, c);
    }
}

/// Every natural number has a rounded-down square root.
pub proof fn lemma_floor_sqrt_exists(x: int)
    requires
        x >= 0,
    ensures
        is_floor_sqrt(x, floor_sqrt(x)),
    decreases x,
{
    if x == 0 {
        assert(is_floor_sqrt(0, 0));
    } else {
        lemma_floor_sqrt_exists(x - 1);
        let r = floor_sqrt(x - 1);
        if (r + 1) * (r + 1) == x {
            assert((r + 2) * (r + 2) > (r + 1) * (r + 1)) by (nonlinear_arith)
                requires
                    r >= 0,
            ;
            assert(is_floor_sqrt(x, r + 1));
        } else {
            assert(is_floor_sqrt(x, r));
        }
    }
}

/// The rounded-down square root lies between any two integers whose squares
/// enclose the number.
pub proof fn lemma_floor_sqrt_between(x: int, low: int, high: int)
    requires
        0 <= low,
        0 <= high,
        low * low <= x <= high * high,
    ensures
        low <= floor_sqrt(x) <= high,
{
    lemma_square_nonnegative(low);
    lemma_floor_sqrt_exists(x);
    let m = floor_sqrt(x);
    if m < low {
        lemma_square_increasing(m, low);
    }
    if high < m {
        lemma_square_increasing(high, m);
        assert(high * high < (high + 1) * (high + 1)) by (nonlinear_arith)
            requires
                0 <= high,
        ;
    }
}

/// The bound of a product from the bounds of its factors.
pub proof fn lemma_mul_bounds(a: int, b: int, la: int, lb: int)
    by (nonlinear_arith)
    requires
        -la <= a <= la,
        -lb <= b <= lb,
    ensures
        -(la * lb) <= a * b <= la * lb,
{
}

/// Dividing a multiple of `d` by `d` gives the factor back, whatever its sign.
pub proof fn lemma_quotient_of_multiple(x: int, d: int)
    requires
        d > 0,
    ensures
        quotient(x * d, d) == x,
{
    assert(d * x == x * d && d * (-x) == (-x) * d) by (nonlinear_arith);
    lemma_mul_signs(x, d);
    if x >= 0 {
        assert(x * d >= 0) by (nonlinear_arith)
            requires
                x >= 0,
                d > 0,
        ;
        lemma_div_multiples_vanish(x, d);
    } else {
        assert(x * d < 0) by (nonlinear_arith)
            requires
                x < 0,
                d > 0,
        ;
        lemma_div_multiples_vanish(-x, d);
    }
}

/// Rounding toward zero commutes with negation.
pub proof fn lemma_quotient_of_opposite(x: int, d: int)
    requires
        d != 0,
    ensures
        quotient(-x, d) == -quotient(x, d),
{
}

/// The quotient by a positive divisor is no larger in magnitude than the
/// dividend.
pub proof fn lemma_quotient_bounded(x: int, d: int, l: int)
    requires
        d > 0,
        -l <= x <= l,
    ensures
        -l <= quotient(x, d) <= l,
{
    if x >= 0 {
        assert(0 <= x / d <= x) by (nonlinear_arith)
            requires
                x >= 0,
                d > 0,
        ;
    } else {
        assert(0 <= (-x) / d <= -x) by (nonlinear_arith)
            requires
                -x >= 0,
                d > 0,
        ;
    }
}

/// Saturating conversion to a scalar.
pub fn narrow(x: i128) -> (r: Scalar)
    ensures
        r as int == saturate(x as int),
{
    if x < -2147483648 {
        i32::MIN
    } else if x > 2147483647 {
        i32::MAX
    } else {
        x as i32
    }
}

/// Division rounding toward zero.
pub fn divide(x: i128, d: i128) -> (r: i128)
    requires
        d != 0,
        i128::MIN < x,
        i128::MIN < d,
    ensures
        r as int == quotient(x as int, d as int),
{
    if d > 0 {
        if x >= 0 {
            x / d
        } else {
            -((-x) / d)
        }
    } else {
        if x >= 0 {
            -(x / (-d))
        } else {
            (-x) / (-d)
        }
    }
}

/// Saturating negation.
pub fn negate(x: Scalar) -> (r: Scalar)
    ensures
        r == negated(x),
        r as int == saturate(-(x as int)),
{
    if x == i32::MIN {
        i32::MAX
    } else {
        -x
    }
}

/// The exact product of two integers whose magnitudes are at most `la` and
/// `lb`.
pub(crate) fn bounded_mul(a: i128, b: i128, Ghost(la): Ghost<int>, Ghost(lb): Ghost<int>) -> (r:
    i128)
    requires
        -la <= a <= la,
        -lb <= b <= lb,
        la * lb <= i128::MAX,
    ensures
        r == a * b,
        -(la * lb) <= r <= la * lb,
{
    proof {
        lemma_mul_bounds(a as int, b as int, la, lb);
    }
    a * b
}

/// The exact product of two scalars.
pub(crate) fn scalar_mul(a: Scalar, b: Scalar) -> (r: i128)
    ensures
        r == a * b,
        -0x4000_0000_0000_0000 <= r <= 0x4000_0000_0000_0000,
{
    bounded_mul(a as i128, b as i128, Ghost(0x8000_0000), Ghost(0x8000_0000))
}

/// The scalar stored for the exact product `x` of two scalars.
pub(crate) fn store(x: i128) -> (r: Scalar)
    requires
        i128::MIN < x,
    ensures
        r as int == stored(x as int),
{
    narrow(divide(x, 65536))
}

/// The scalar stored for the exact product `x` of three scalars.
pub(crate) fn store_twice(x: i128) -> (r: Scalar)
    requires
        i128::MIN < x,
    ensures
        r as int == stored_twice(x as int),
{
    narrow(divide(x, 0x1_0000_0000))
}

/// A square is never negative.
pub proof fn lemma_square_nonnegative(x: int)
    by (nonlinear_arith)
    ensures
        0 <= x * x,
{
}

/// Integer square root, rounded down.
pub fn isqrt(x: u128) -> (r: u64)
    ensures
        r as int == floor_sqrt(x as int),
        is_floor_sqrt(x as int, r as int),
{
    let mut lo: u128 = 0;
    let mut hi: u128 = 0x1_0000_0000_0000_0000;
    proof {
        assert(0x1_0000_0000_0000_0000int * 0x1_0000_0000_0000_0000int
            == 0x1_0000_0000_0000_0000_0000_0000_0000_0000int) by (nonlinear_arith);
    }
    while hi - lo > 1
        invariant
            lo < hi <= 0x1_0000_0000_0000_0000,
            lo * lo <= x,
            x < hi * hi,
        decreases hi - lo,
    {
        let mid: u128 = lo + (hi - lo) / 2;
        proof {
            lemma_mul_bounds(mid as int, mid as int, 0xffff_ffff_ffff_ffff, 0xffff_ffff_ffff_ffff);
        }
        if mid * mid <= x {
            lo = mid;
        } else {
            hi = mid;
        }
    }
    proof {
        lemma_floor_sqrt_unique(x as int, lo as int);
    }
    lo as u64
}

} // verus!
