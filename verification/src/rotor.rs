//! Rotors with fixed-point coefficients: orientations in four-dimensional
//! space.
use crate::algebra::{
    norm_sq, product, pseudo, reverse, sandwich, Plane, RotorModel, VectorModel,
};
use crate::arith::lemma_mul_signs;
use crate::quaternion::{quat_mul, Quaternion};
use crate::scalar::{
    bounded_mul, divide, floor_sqrt, is_floor_sqrt, isqrt, lemma_square_increasing,
    lemma_square_nonnegative, narrow, negate, negated, quotient, saturate, scalar_mul, store,
    store_twice, stored, stored_twice, Scalar, ONE,
};
use crate::vector::Vector4;
use vstd::arithmetic::div_mod::{lemma_div_is_ordered, lemma_div_multiples_vanish};
use vstd::prelude::*;

verus! {

/// A rotation angle, given by the cosine and the sine of its half.
#[derive(Clone, Copy, Debug, PartialEq, Eq, Structural)]
pub struct HalfAngle {
    pub cos: Scalar,
    pub sin: Scalar,
}

/// An element of the even subalgebra: one scalar, six bivector coefficients
/// (one for each pair of axes) and one pseudoscalar coefficient.
#[derive(Clone, Copy, Debug, PartialEq, Eq, Structural)]
pub struct Rotor {
    pub s: Scalar,
    pub e12: Scalar,
    pub e13: Scalar,
    pub e14: Scalar,
    pub e23: Scalar,
    pub e24: Scalar,
    pub e34: Scalar,
    pub e1234: Scalar,
}

impl View for Rotor {
    type V = RotorModel;

    open spec fn view(&self) -> RotorModel {
        RotorModel {
            s: self.s as int,
            e12: self.e12 as int,
            e13: self.e13 as int,
            e14: self.e14 as int,
            e23: self.e23 as int,
            e24: self.e24 as int,
            e34: self.e34 as int,
            e1234: self.e1234 as int,
        }
    }
}

impl HalfAngle {
    /// Cosine and sine are at most one in magnitude.
    pub open spec fn is_valid(self) -> bool {
        -ONE <= self.cos <= ONE && -ONE <= self.sin <= ONE
    }

    /// Cosine and sine are those of an angle: their squares add up to one.
    pub open spec fn is_unit(self) -> bool {
        self.cos * self.cos + self.sin * self.sin == ONE * ONE
    }

    /// The half of the sum of two angles, by the addition theorems.
    pub open spec fn spec_plus(self, rhs: HalfAngle) -> HalfAngle {
        HalfAngle {
            cos: stored(self.cos * rhs.cos - self.sin * rhs.sin) as Scalar,
            sin: stored(self.sin * rhs.cos + self.cos * rhs.sin) as Scalar,
        }
    }

    /// The half of the opposite angle.
    pub open spec fn spec_opposite(self) -> HalfAngle {
        HalfAngle { cos: self.cos, sin: negated(self.sin) }
    }

    /// The half of the opposite angle: the same cosine, the opposite sine.
    pub fn opposite(self) -> (r: HalfAngle)
        ensures
            r == self.spec_opposite(),
    {
        HalfAngle { cos: self.cos, sin: negate(self.sin) }
    }

    /// The half of the angle zero.
    pub fn zero() -> (r: HalfAngle)
        ensures
            r == (HalfAngle { cos: ONE, sin: 0 }),
    {
        HalfAngle { cos: ONE, sin: 0 }
    }

    /// Whether cosine and sine are at most one in magnitude.
    pub fn check(&self) -> (r: bool)
        ensures
            r == self.is_valid(),
    {
        -ONE <= self.cos && self.cos <= ONE && -ONE <= self.sin && self.sin <= ONE
    }

    /// The half of the sum of two angles: cosine `c1 c2 - s1 s2`, sine
    /// `s1 c2 + c1 s2`.
    pub fn plus(self, rhs: HalfAngle) -> (r: HalfAngle)
        ensures
            r == self.spec_plus(rhs),
    {
        HalfAngle {
            cos: store(scalar_mul(self.cos, rhs.cos) - scalar_mul(self.sin, rhs.sin)),
            sin: store(scalar_mul(self.sin, rhs.cos) + scalar_mul(self.cos, rhs.sin)),
        }
    }
}

/// The identity: the scalar one.
pub open spec fn identity_rotor() -> Rotor {
    Rotor { s: ONE, e12: 0, e13: 0, e14: 0, e23: 0, e24: 0, e34: 0, e1234: 0 }
}

/// The rotor of the given plane and half angle: the cosine as scalar, the sine
/// as the coefficient of the plane, with a minus sign in the planes xz and yw.
pub open spec fn plane_rotor(plane: Plane, half: HalfAngle) -> Rotor {
    let r = Rotor { s: half.cos, e12: 0, e13: 0, e14: 0, e23: 0, e24: 0, e34: 0, e1234: 0 };
    match plane {
        Plane::XY => Rotor { e12: half.sin, ..r },
        Plane::XZ => Rotor { e13: negated(half.sin), ..r },
        Plane::XW => Rotor { e14: half.sin, ..r },
        Plane::YZ => Rotor { e23: half.sin, ..r },
        Plane::YW => Rotor { e24: negated(half.sin), ..r },
        Plane::ZW => Rotor { e34: half.sin, ..r },
    }
}

/// The rotor has unit magnitude: `reverse(r) r` is the scalar one. That is,
/// the squared norm is `ONE²` and the pseudoscalar part of `reverse(r) r` is
/// zero.
pub open spec fn is_unit(r: RotorModel) -> bool {
    norm_sq(r) == ONE * ONE && pseudo(r) == 0
}

/// The rotor has a magnitude of at most about one: the squared norms
/// `norm_sq - pseudo` and `norm_sq + pseudo` of its two halves are at most
/// `4 ONE²`. Every unit rotor is of this kind, and so is what `normalized`
/// returns.
pub open spec fn is_moderate(r: RotorModel) -> bool {
    norm_sq(r) - pseudo(r) <= 0x4_0000_0000 && norm_sq(r) + pseudo(r) <= 0x4_0000_0000
}

/// No coefficient exceeds one in magnitude.
pub open spec fn within_one(r: RotorModel) -> bool {
    &&& -ONE <= r.s <= ONE
    &&& -ONE <= r.e12 <= ONE
    &&& -ONE <= r.e13 <= ONE
    &&& -ONE <= r.e14 <= ONE
    &&& -ONE <= r.e23 <= ONE
    &&& -ONE <= r.e24 <= ONE
    &&& -ONE <= r.e34 <= ONE
    &&& -ONE <= r.e1234 <= ONE
}

/// Every coefficient of an exact product stored as a scalar.
pub open spec fn stored_rotor(r: RotorModel) -> RotorModel {
    RotorModel {
        s: stored(r.s),
        e12: stored(r.e12),
        e13: stored(r.e13),
        e14: stored(r.e14),
        e23: stored(r.e23),
        e24: stored(r.e24),
        e34: stored(r.e34),
        e1234: stored(r.e1234),
    }
}

/// Every coefficient brought into the range of a scalar.
pub open spec fn saturated_rotor(r: RotorModel) -> RotorModel {
    RotorModel {
        s: saturate(r.s),
        e12: saturate(r.e12),
        e13: saturate(r.e13),
        e14: saturate(r.e14),
        e23: saturate(r.e23),
        e24: saturate(r.e24),
        e34: saturate(r.e34),
        e1234: saturate(r.e1234),
    }
}

/// What `compose` stores: the geometric product, each coefficient divided by
/// `ONE`.
pub open spec fn composed(p: RotorModel, q: RotorModel) -> RotorModel {
    stored_rotor(product(p, q))
}

/// What `rotate` stores: the sandwich product, each coordinate divided by
/// `ONE²`.
pub open spec fn rotated(r: RotorModel, v: VectorModel) -> VectorModel {
    let t = sandwich(r, v);
    VectorModel {
        x: stored_twice(t.x),
        y: stored_twice(t.y),
        z: stored_twice(t.z),
        w: stored_twice(t.w),
    }
}

/// The magnitude in stored units: the square root of the squared norm, rounded
/// down.
pub open spec fn magnitude_of(r: RotorModel) -> int {
    floor_sqrt(norm_sq(r))
}

/// What `normalized` stores: each coefficient times `ONE`, divided by the
/// magnitude; a rotor of magnitude zero as it is.
pub open spec fn normalized_rotor(r: RotorModel) -> RotorModel {
    let m = magnitude_of(r);
    if m == 0 {
        r
    } else {
        RotorModel {
            s: quotient(r.s * ONE, m),
            e12: quotient(r.e12 * ONE, m),
            e13: quotient(r.e13 * ONE, m),
            e14: quotient(r.e14 * ONE, m),
            e23: quotient(r.e23 * ONE, m),
            e24: quotient(r.e24 * ONE, m),
            e34: quotient(r.e34 * ONE, m),
            e1234: quotient(r.e1234 * ONE, m),
        }
    }
}

/// A coefficient whose square is at most `n` has magnitude at most the square
/// root `m` of `n`, so that dividing it by `m` gives at most one.
pub proof fn lemma_normalized_coefficient(c: int, n: int, m: int)
    requires
        c * c <= n,
        is_floor_sqrt(n, m),
        m > 0,
    ensures
        -m <= c <= m,
        -(ONE as int) <= quotient(c * ONE, m) <= ONE,
{
    if c > m {
        lemma_square_increasing(m, c);
    }
    if -c > m {
        lemma_square_increasing(m, -c);
        lemma_mul_signs(c, c);
    }
    let a = if c >= 0 {
        c
    } else {
        -c
    };
    lemma_div_is_ordered(0, a * ONE, m);
    lemma_div_is_ordered(a * ONE, m * ONE, m);
    lemma_div_multiples_vanish(ONE as int, m);
    assert(m * (ONE as int) == m * ONE);
}

/// A quaternion in 128-bit integers, for exact intermediate products.
struct Wide {
    re: i128,
    i: i128,
    j: i128,
    k: i128,
}

impl View for Wide {
    type V = Quaternion;

    closed spec fn view(&self) -> Quaternion {
        Quaternion { re: self.re as int, i: self.i as int, j: self.j as int, k: self.k as int }
    }
}

/// Every coefficient of `q` has magnitude at most `l`.
pub open spec fn within(q: Quaternion, l: int) -> bool {
    &&& -l <= q.re <= l
    &&& -l <= q.i <= l
    &&& -l <= q.j <= l
    &&& -l <= q.k <= l
}

/// The exact quaternion product of `a` and `b`.
fn wide_quat_mul(a: &Wide, b: &Wide, Ghost(la): Ghost<int>, Ghost(lb): Ghost<int>) -> (r: Wide)
    requires
        within(a@, la),
        within(b@, lb),
        4 * (la * lb) <= i128::MAX,
    ensures
        r@ == quat_mul(a@, b@),
        within(r@, 4 * (la * lb)),
{
    let rr = bounded_mul(a.re, b.re, Ghost(la), Ghost(lb));
    let ri = bounded_mul(a.re, b.i, Ghost(la), Ghost(lb));
    let rj = bounded_mul(a.re, b.j, Ghost(la), Ghost(lb));
    let rk = bounded_mul(a.re, b.k, Ghost(la), Ghost(lb));
    let ir = bounded_mul(a.i, b.re, Ghost(la), Ghost(lb));
    let ii = bounded_mul(a.i, b.i, Ghost(la), Ghost(lb));
    let ij = bounded_mul(a.i, b.j, Ghost(la), Ghost(lb));
    let ik = bounded_mul(a.i, b.k, Ghost(la), Ghost(lb));
    let jr = bounded_mul(a.j, b.re, Ghost(la), Ghost(lb));
    let ji = bounded_mul(a.j, b.i, Ghost(la), Ghost(lb));
    let jj = bounded_mul(a.j, b.j, Ghost(la), Ghost(lb));
    let jk = bounded_mul(a.j, b.k, Ghost(la), Ghost(lb));
    let kr = bounded_mul(a.k, b.re, Ghost(la), Ghost(lb));
    let ki = bounded_mul(a.k, b.i, Ghost(la), Ghost(lb));
    let kj = bounded_mul(a.k, b.j, Ghost(la), Ghost(lb));
    let kk = bounded_mul(a.k, b.k, Ghost(la), Ghost(lb));
    Wide {
        re: rr - ii - jj - kk,
        i: ri + ir + jk - kj,
        j: rj - ik + jr + ki,
        k: rk + ij - ji + kr,
    }
}

impl Rotor {
    /// The rotor that leaves every vector where it is.
    pub fn identity() -> (r: Rotor)
        ensures
            r == identity_rotor(),
    {
        Rotor { s: ONE, e12: 0, e13: 0, e14: 0, e23: 0, e24: 0, e34: 0, e1234: 0 }
    }

    /// The rotation in the given plane that turns its first axis toward its
    /// second.
    pub fn in_plane(plane: Plane, half: HalfAngle) -> (r: Rotor)
        ensures
            r == plane_rotor(plane, half),
    {
        match plane {
            Plane::XY => Rotor::rotation_xy(half),
            Plane::XZ => Rotor::rotation_xz(half),
            Plane::XW => Rotor::rotation_xw(half),
            Plane::YZ => Rotor::rotation_yz(half),
            Plane::YW => Rotor::rotation_yw(half),
            Plane::ZW => Rotor::rotation_zw(half),
        }
    }

    /// The rotation in the xy-plane that turns the x axis toward the y axis.
    pub fn rotation_xy(half: HalfAngle) -> (r: Rotor)
        ensures
            r == plane_rotor(Plane::XY, half),
    {
        Rotor { s: half.cos, e12: half.sin, e13: 0, e14: 0, e23: 0, e24: 0, e34: 0, e1234: 0 }
    }

    /// The rotation in the xz-plane that turns the x axis toward the z axis.
    pub fn rotation_xz(half: HalfAngle) -> (r: Rotor)
        ensures
            r == plane_rotor(Plane::XZ, half),
    {
        Rotor {
            s: half.cos,
            e12: 0,
            e13: negate(half.sin),
            e14: 0,
            e23: 0,
            e24: 0,
            e34: 0,
            e1234: 0,
        }
    }

    /// The rotation in the xw-plane that turns the x axis toward the w axis.
    pub fn rotation_xw(half: HalfAngle) -> (r: Rotor)
        ensures
            r == plane_rotor(Plane::XW, half),
    {
        Rotor { s: half.cos, e12: 0, e13: 0, e14: half.sin, e23: 0, e24: 0, e34: 0, e1234: 0 }
    }

    /// The rotation in the yz-plane that turns the y axis toward the z axis.
    pub fn rotation_yz(half: HalfAngle) -> (r: Rotor)
        ensures
            r == plane_rotor(Plane::YZ, half),
    {
        Rotor { s: half.cos, e12: 0, e13: 0, e14: 0, e23: half.sin, e24: 0, e34: 0, e1234: 0 }
    }

    /// The rotation in the yw-plane that turns the y axis toward the w axis.
    pub fn rotation_yw(half: HalfAngle) -> (r: Rotor)
        ensures
            r == plane_rotor(Plane::YW, half),
    {
        Rotor {
            s: half.cos,
            e12: 0,
            e13: 0,
            e14: 0,
            e23: 0,
            e24: negate(half.sin),
            e34: 0,
            e1234: 0,
        }
    }

    /// The rotation in the zw-plane that turns the z axis toward the w axis.
    pub fn rotation_zw(half: HalfAngle) -> (r: Rotor)
        ensures
            r == plane_rotor(Plane::ZW, half),
    {
        Rotor { s: half.cos, e12: 0, e13: 0, e14: 0, e23: 0, e24: 0, e34: half.sin, e1234: 0 }
    }

    /// Reversion: the six bivector coefficients change sign; the scalar and the
    /// pseudoscalar stay.
    pub fn reverse(self) -> (r: Rotor)
        ensures
            r@ == saturated_rotor(reverse(self@)),
    {
        Rotor {
            s: self.s,
            e12: negate(self.e12),
            e13: negate(self.e13),
            e14: negate(self.e14),
            e23: negate(self.e23),
            e24: negate(self.e24),
            e34: negate(self.e34),
            e1234: self.e1234,
        }
    }

    /// Composition, the geometric product `self rhs`: as a rotation, `rhs`
    /// first and `self` after it.
    pub fn compose(self, rhs: Rotor) -> (r: Rotor)
        ensures
            r@ == composed(self@, rhs@),
    {
        let p = self;
        let q = rhs;
        Rotor {
            s: store(
                scalar_mul(p.s, q.s) - scalar_mul(p.e12, q.e12) - scalar_mul(p.e13, q.e13)
                    - scalar_mul(p.e14, q.e14) - scalar_mul(p.e23, q.e23) - scalar_mul(
                    p.e24,
                    q.e24,
                ) - scalar_mul(p.e34, q.e34) + scalar_mul(p.e1234, q.e1234),
            ),
            e12: store(
                scalar_mul(p.s, q.e12) + scalar_mul(p.e12, q.s) - scalar_mul(p.e13, q.e23)
                    - scalar_mul(p.e14, q.e24) + scalar_mul(p.e23, q.e13) + scalar_mul(
                    p.e24,
                    q.e14,
                ) - scalar_mul(p.e34, q.e1234) - scalar_mul(p.e1234, q.e34),
            ),
            e13: store(
                scalar_mul(p.s, q.e13) + scalar_mul(p.e12, q.e23) + scalar_mul(p.e13, q.s)
                    - scalar_mul(p.e14, q.e34) - scalar_mul(p.e23, q.e12) + scalar_mul(
                    p.e24,
                    q.e1234,
                ) + scalar_mul(p.e34, q.e14) + scalar_mul(p.e1234, q.e24),
            ),
            e14: store(
                scalar_mul(p.s, q.e14) + scalar_mul(p.e12, q.e24) + scalar_mul(p.e13, q.e34)
                    + scalar_mul(p.e14, q.s) - scalar_mul(p.e23, q.e1234) - scalar_mul(
                    p.e24,
                    q.e12,
                ) - scalar_mul(p.e34, q.e13) - scalar_mul(p.e1234, q.e23),
            ),
            e23: store(
                scalar_mul(p.s, q.e23) - scalar_mul(p.e12, q.e13) + scalar_mul(p.e13, q.e12)
                    - scalar_mul(p.e14, q.e1234) + scalar_mul(p.e23, q.s) - scalar_mul(
                    p.e24,
                    q.e34,
                ) + scalar_mul(p.e34, q.e24) - scalar_mul(p.e1234, q.e14),
            ),
            e24: store(
                scalar_mul(p.s, q.e24) - scalar_mul(p.e12, q.e14) + scalar_mul(p.e13, q.e1234)
                    + scalar_mul(p.e14, q.e12) + scalar_mul(p.e23, q.e34) + scalar_mul(
                    p.e24,
                    q.s,
                ) - scalar_mul(p.e34, q.e23) + scalar_mul(p.e1234, q.e13),
            ),
            e34: store(
                scalar_mul(p.s, q.e34) - scalar_mul(p.e12, q.e1234) - scalar_mul(p.e13, q.e14)
                    + scalar_mul(p.e14, q.e13) - scalar_mul(p.e23, q.e24) + scalar_mul(
                    p.e24,
                    q.e23,
                ) + scalar_mul(p.e34, q.s) - scalar_mul(p.e1234, q.e12),
            ),
            e1234: store(
                scalar_mul(p.s, q.e1234) + scalar_mul(p.e12, q.e34) - scalar_mul(p.e13, q.e24)
                    + scalar_mul(p.e14, q.e23) + scalar_mul(p.e23, q.e14) - scalar_mul(
                    p.e24,
                    q.e13,
                ) + scalar_mul(p.e34, q.e12) + scalar_mul(p.e1234, q.s),
            ),
        }
    }

    /// The sum of the squares of the eight coefficients, before it is divided
    /// by `ONE`.
    pub fn wide_magnitude_squared(self) -> (r: i128)
        ensures
            r == norm_sq(self@),
            0 <= r <= 0x2_0000_0000_0000_0000,
    {
        proof {
            lemma_square_nonnegative(self.s as int);
            lemma_square_nonnegative(self.e12 as int);
            lemma_square_nonnegative(self.e13 as int);
            lemma_square_nonnegative(self.e14 as int);
            lemma_square_nonnegative(self.e23 as int);
            lemma_square_nonnegative(self.e24 as int);
            lemma_square_nonnegative(self.e34 as int);
            lemma_square_nonnegative(self.e1234 as int);
        }
        scalar_mul(self.s, self.s) + scalar_mul(self.e12, self.e12) + scalar_mul(
            self.e13,
            self.e13,
        ) + scalar_mul(self.e14, self.e14) + scalar_mul(self.e23, self.e23) + scalar_mul(
            self.e24,
            self.e24,
        ) + scalar_mul(self.e34, self.e34) + scalar_mul(self.e1234, self.e1234)
    }

    /// Whether the rotor has unit magnitude: whether `reverse(self) self` is
    /// the scalar one.
    pub fn is_unit(&self) -> (r: bool)
        ensures
            r == is_unit(self@),
    {
        let n = self.wide_magnitude_squared();
        let p = scalar_mul(self.s, self.e1234) - scalar_mul(self.e12, self.e34) + scalar_mul(
            self.e13,
            self.e24,
        ) - scalar_mul(self.e14, self.e23);
        n == 0x1_0000_0000 && p == 0
    }

    /// Whether the rotor has a magnitude of at most about one.
    pub fn is_moderate(&self) -> (r: bool)
        ensures
            r == is_moderate(self@),
    {
        let n = self.wide_magnitude_squared();
        let p = 2 * (scalar_mul(self.s, self.e1234) - scalar_mul(self.e12, self.e34)
            + scalar_mul(self.e13, self.e24) - scalar_mul(self.e14, self.e23));
        n - p <= 0x4_0000_0000 && n + p <= 0x4_0000_0000
    }

    /// The squared magnitude: the scalar part of `reverse(self) self`.
    pub fn magnitude_squared(self) -> (r: Scalar)
        ensures
            r as int == stored(norm_sq(self@)),
    {
        store(self.wide_magnitude_squared())
    }

    /// The magnitude: the square root of the squared magnitude, rounded down.
    pub fn magnitude(self) -> (r: Scalar)
        ensures
            r as int == saturate(magnitude_of(self@)),
    {
        let n = self.wide_magnitude_squared();
        narrow(isqrt(n as u128) as i128)
    }

    /// The rotor divided by its magnitude; a rotor of magnitude zero is returned
    /// as it is.
    pub fn normalized(self) -> (r: Rotor)
        ensures
            r@ == normalized_rotor(self@),
    {
        let n = self.wide_magnitude_squared();
        let m = isqrt(n as u128) as i128;
        if m == 0 {
            return self;
        }
        proof {
            lemma_square_nonnegative(self.s as int);
            lemma_square_nonnegative(self.e12 as int);
            lemma_square_nonnegative(self.e13 as int);
            lemma_square_nonnegative(self.e14 as int);
            lemma_square_nonnegative(self.e23 as int);
            lemma_square_nonnegative(self.e24 as int);
            lemma_square_nonnegative(self.e34 as int);
            lemma_square_nonnegative(self.e1234 as int);
            lemma_normalized_coefficient(self.s as int, n as int, m as int);
            lemma_normalized_coefficient(self.e12 as int, n as int, m as int);
            lemma_normalized_coefficient(self.e13 as int, n as int, m as int);
            lemma_normalized_coefficient(self.e14 as int, n as int, m as int);
            lemma_normalized_coefficient(self.e23 as int, n as int, m as int);
            lemma_normalized_coefficient(self.e24 as int, n as int, m as int);
            lemma_normalized_coefficient(self.e34 as int, n as int, m as int);
            lemma_normalized_coefficient(self.e1234 as int, n as int, m as int);
        }
        Rotor {
            s: divide(self.s as i128 * 65536, m) as i32,
            e12: divide(self.e12 as i128 * 65536, m) as i32,
            e13: divide(self.e13 as i128 * 65536, m) as i32,
            e14: divide(self.e14 as i128 * 65536, m) as i32,
            e23: divide(self.e23 as i128 * 65536, m) as i32,
            e24: divide(self.e24 as i128 * 65536, m) as i32,
            e34: divide(self.e34 as i128 * 65536, m) as i32,
            e1234: divide(self.e1234 as i128 * 65536, m) as i32,
        }
    }

    /// The sandwich product `self v reverse(self)`: the vector rotated, and
    /// scaled by the squared magnitude where that is not one.
    pub fn rotate(self, v: Vector4) -> (r: Vector4)
        ensures
            r@ == rotated(self@, v@),
    {
        let l = Wide {
            re: self.s as i128 - self.e1234 as i128,
            i: self.e12 as i128 + self.e34 as i128,
            j: self.e24 as i128 - self.e13 as i128,
            k: self.e14 as i128 + self.e23 as i128,
        };
        let t = Wide {
            re: self.s as i128 + self.e1234 as i128,
            i: self.e12 as i128 - self.e34 as i128,
            j: -(self.e13 as i128) - self.e24 as i128,
            k: self.e14 as i128 - self.e23 as i128,
        };
        let x = Wide { re: v.x as i128, i: v.y as i128, j: v.z as i128, k: v.w as i128 };
        let lx = wide_quat_mul(&l, &x, Ghost(0x1_0000_0000), Ghost(0x8000_0000));
        let y = wide_quat_mul(
            &lx,
            &t,
            Ghost(0x2_0000_0000_0000_0000),
            Ghost(0x1_0000_0000),
        );
        Vector4 {
            x: store_twice(y.re),
            y: store_twice(y.i),
            z: store_twice(y.j),
            w: store_twice(y.k),
        }
    }
}

} // verus!
