//! The exact algebra behind the fixed-point types: rotors and vectors with
//! integer coefficients, where nothing is rounded.
//!
//! A rotor is an element of the even subalgebra of the geometric algebra of
//! four-dimensional Euclidean space: a scalar, six bivector coefficients and a
//! pseudoscalar. The pseudoscalar commutes with every rotor and squares to one,
//! which splits a rotor into two quaternions, its left and right halves; the
//! action of a rotor on a vector `v`, read as a quaternion, is
//! `left · v · right`.
use crate::arith::lemma_mul_binomials;
use crate::quaternion::{quat_conj, quat_mul, quat_norm_sq, Quaternion};
use vstd::prelude::*;

verus! {

/// A vector of four-dimensional space with integer coordinates.
pub struct VectorModel {
    pub x: int,
    pub y: int,
    pub z: int,
    pub w: int,
}

/// A rotor with integer coefficients.
pub struct RotorModel {
    pub s: int,
    pub e12: int,
    pub e13: int,
    pub e14: int,
    pub e23: int,
    pub e24: int,
    pub e34: int,
    pub e1234: int,
}

/// One of the six planes spanned by two of the four axes.
#[derive(Clone, Copy, Debug, PartialEq, Eq, Structural)]
pub enum Plane {
    XY,
    XZ,
    XW,
    YZ,
    YW,
    ZW,
}

/// The rotor `c - s a b` of the plane of the axes `a` and `b`. With `c` and `s`
/// the cosine and sine of half an angle, it turns the first axis of the plane
/// toward the second by that angle.
///
/// The axes x, y, z and w are the basis vectors `e1`, `-e2`, `e3` and `-e4`:
/// the vector `(x, y, z, w)` stands for `x e1 - y e2 + z e3 - w e4`. So the
/// sine enters the coefficients of the planes xz and yw with a minus sign and
/// those of the other four with a plus sign.
pub open spec fn plane_model(plane: Plane, c: int, s: int) -> RotorModel {
    let r = scalar_rotor(c);
    match plane {
        Plane::XY => RotorModel { e12: s, ..r },
        Plane::XZ => RotorModel { e13: -s, ..r },
        Plane::XW => RotorModel { e14: s, ..r },
        Plane::YZ => RotorModel { e23: s, ..r },
        Plane::YW => RotorModel { e24: -s, ..r },
        Plane::ZW => RotorModel { e34: s, ..r },
    }
}

/// The rotor that is the scalar `k` alone.
pub open spec fn scalar_rotor(k: int) -> RotorModel {
    RotorModel { s: k, e12: 0, e13: 0, e14: 0, e23: 0, e24: 0, e34: 0, e1234: 0 }
}

/// The sum of two vectors.
pub open spec fn vector_sum(a: VectorModel, b: VectorModel) -> VectorModel {
    VectorModel { x: a.x + b.x, y: a.y + b.y, z: a.z + b.z, w: a.w + b.w }
}

/// The difference of two vectors.
pub open spec fn vector_difference(a: VectorModel, b: VectorModel) -> VectorModel {
    VectorModel { x: a.x - b.x, y: a.y - b.y, z: a.z - b.z, w: a.w - b.w }
}

/// No coordinate of `v` exceeds `l` in magnitude.
pub open spec fn coordinates_within(v: VectorModel, l: int) -> bool {
    &&& -l <= v.x <= l
    &&& -l <= v.y <= l
    &&& -l <= v.z <= l
    &&& -l <= v.w <= l
}

/// The inner product of two vectors.
pub open spec fn dot(a: VectorModel, b: VectorModel) -> int {
    a.x * b.x + a.y * b.y + a.z * b.z + a.w * b.w
}

/// Every coordinate of `v` multiplied by `k`.
pub open spec fn scale_vector(v: VectorModel, k: int) -> VectorModel {
    VectorModel { x: v.x * k, y: v.y * k, z: v.z * k, w: v.w * k }
}

/// The geometric product `p q`: the multiplication table of the even
/// subalgebra, with `e_i e_i = 1` and `e_i e_j = -e_j e_i`.
pub open spec fn product(p: RotorModel, q: RotorModel) -> RotorModel {
    RotorModel {
        s: p.s * q.s - p.e12 * q.e12 - p.e13 * q.e13 - p.e14 * q.e14 - p.e23 * q.e23 - p.e24
            * q.e24 - p.e34 * q.e34 + p.e1234 * q.e1234,
        e12: p.s * q.e12 + p.e12 * q.s - p.e13 * q.e23 - p.e14 * q.e24 + p.e23 * q.e13 + p.e24
            * q.e14 - p.e34 * q.e1234 - p.e1234 * q.e34,
        e13: p.s * q.e13 + p.e12 * q.e23 + p.e13 * q.s - p.e14 * q.e34 - p.e23 * q.e12 + p.e24
            * q.e1234 + p.e34 * q.e14 + p.e1234 * q.e24,
        e14: p.s * q.e14 + p.e12 * q.e24 + p.e13 * q.e34 + p.e14 * q.s - p.e23 * q.e1234 - p.e24
            * q.e12 - p.e34 * q.e13 - p.e1234 * q.e23,
        e23: p.s * q.e23 - p.e12 * q.e13 + p.e13 * q.e12 - p.e14 * q.e1234 + p.e23 * q.s - p.e24
            * q.e34 + p.e34 * q.e24 - p.e1234 * q.e14,
        e24: p.s * q.e24 - p.e12 * q.e14 + p.e13 * q.e1234 + p.e14 * q.e12 + p.e23 * q.e34
            + p.e24 * q.s - p.e34 * q.e23 + p.e1234 * q.e13,
        e34: p.s * q.e34 - p.e12 * q.e1234 - p.e13 * q.e14 + p.e14 * q.e13 - p.e23 * q.e24
            + p.e24 * q.e23 + p.e34 * q.s - p.e1234 * q.e12,
        e1234: p.s * q.e1234 + p.e12 * q.e34 - p.e13 * q.e24 + p.e14 * q.e23 + p.e23 * q.e14
            - p.e24 * q.e13 + p.e34 * q.e12 + p.e1234 * q.s,
    }
}

/// Reversion: the six bivector coefficients change sign.
pub open spec fn reverse(r: RotorModel) -> RotorModel {
    RotorModel {
        s: r.s,
        e12: -r.e12,
        e13: -r.e13,
        e14: -r.e14,
        e23: -r.e23,
        e24: -r.e24,
        e34: -r.e34,
        e1234: r.e1234,
    }
}

/// Sum of the squares of the eight coefficients: the scalar part of
/// `reverse(r) r`.
pub open spec fn norm_sq(r: RotorModel) -> int {
    r.s * r.s + r.e12 * r.e12 + r.e13 * r.e13 + r.e14 * r.e14 + r.e23 * r.e23 + r.e24 * r.e24
        + r.e34 * r.e34 + r.e1234 * r.e1234
}

/// The pseudoscalar part of `reverse(r) r`. It is zero exactly when
/// `reverse(r) r` is a scalar, that is when `r` is a multiple of a rotation.
pub open spec fn pseudo(r: RotorModel) -> int {
    2 * (r.s * r.e1234) - 2 * (r.e12 * r.e34) + 2 * (r.e13 * r.e24) - 2 * (r.e14 * r.e23)
}

/// The value of `reverse(r) r`: the squared norm as scalar part, `pseudo(r)` as
/// pseudoscalar part, and no bivector part.
pub open spec fn norm_rotor(r: RotorModel) -> RotorModel {
    RotorModel {
        s: norm_sq(r),
        e12: 0,
        e13: 0,
        e14: 0,
        e23: 0,
        e24: 0,
        e34: 0,
        e1234: pseudo(r),
    }
}

/// The left quaternion half of a rotor.
pub open spec fn left_half(r: RotorModel) -> Quaternion {
    Quaternion { re: r.s - r.e1234, i: r.e12 + r.e34, j: r.e24 - r.e13, k: r.e14 + r.e23 }
}

/// The right quaternion half of a rotor, already conjugated for use on the
/// right of a vector.
pub open spec fn right_half(r: RotorModel) -> Quaternion {
    Quaternion { re: r.s + r.e1234, i: r.e12 - r.e34, j: -r.e13 - r.e24, k: r.e14 - r.e23 }
}

/// A vector read as the quaternion `x + y·I + z·J + w·K`.
pub open spec fn as_quaternion(v: VectorModel) -> Quaternion {
    Quaternion { re: v.x, i: v.y, j: v.z, k: v.w }
}

/// A quaternion read back as a vector.
pub open spec fn as_vector(q: Quaternion) -> VectorModel {
    VectorModel { x: q.re, y: q.i, z: q.j, w: q.k }
}

/// The vector `x e1 - y e2 + z e3 - w e4` multiplied by `e1` from the left,
/// which makes it an element of the even subalgebra.
pub open spec fn embedded(v: VectorModel) -> RotorModel {
    RotorModel { s: v.x, e12: -v.y, e13: v.z, e14: -v.w, e23: 0, e24: 0, e34: 0, e1234: 0 }
}

/// The rotor `e1 r e1`: the coefficients of `e12`, `e13`, `e14` and `e1234`
/// change sign.
pub open spec fn conjugated_by_e1(r: RotorModel) -> RotorModel {
    RotorModel {
        s: r.s,
        e12: -r.e12,
        e13: -r.e13,
        e14: -r.e14,
        e23: r.e23,
        e24: r.e24,
        e34: r.e34,
        e1234: -r.e1234,
    }
}

/// The sandwich product `r v reverse(r)`, with nothing divided out: for a rotor
/// of squared norm `n` (and zero pseudoscalar part) it is `n` times the rotated
/// vector.
pub open spec fn sandwich(r: RotorModel, v: VectorModel) -> VectorModel {
    as_vector(quat_mul(quat_mul(left_half(r), as_quaternion(v)), right_half(r)))
}

/// Taking the left half turns the geometric product into the quaternion
/// product.
pub proof fn lemma_left_half_of_product(p: RotorModel, q: RotorModel)
    ensures
        left_half(product(p, q)) == quat_mul(left_half(p), left_half(q)),
{
    let lp = left_half(p);
    let lq = left_half(q);
    lemma_mul_binomials(lp.re, lq.re, 1, p.s, -1, p.e1234, 1, q.s, -1, q.e1234);
    lemma_mul_binomials(lp.re, lq.i, 1, p.s, -1, p.e1234, 1, q.e12, 1, q.e34);
    lemma_mul_binomials(lp.re, lq.j, 1, p.s, -1, p.e1234, 1, q.e24, -1, q.e13);
    lemma_mul_binomials(lp.re, lq.k, 1, p.s, -1, p.e1234, 1, q.e14, 1, q.e23);
    lemma_mul_binomials(lp.i, lq.re, 1, p.e12, 1, p.e34, 1, q.s, -1, q.e1234);
    lemma_mul_binomials(lp.i, lq.i, 1, p.e12, 1, p.e34, 1, q.e12, 1, q.e34);
    lemma_mul_binomials(lp.i, lq.j, 1, p.e12, 1, p.e34, 1, q.e24, -1, q.e13);
    lemma_mul_binomials(lp.i, lq.k, 1, p.e12, 1, p.e34, 1, q.e14, 1, q.e23);
    lemma_mul_binomials(lp.j, lq.re, 1, p.e24, -1, p.e13, 1, q.s, -1, q.e1234);
    lemma_mul_binomials(lp.j, lq.i, 1, p.e24, -1, p.e13, 1, q.e12, 1, q.e34);
    lemma_mul_binomials(lp.j, lq.j, 1, p.e24, -1, p.e13, 1, q.e24, -1, q.e13);
    lemma_mul_binomials(lp.j, lq.k, 1, p.e24, -1, p.e13, 1, q.e14, 1, q.e23);
    lemma_mul_binomials(lp.k, lq.re, 1, p.e14, 1, p.e23, 1, q.s, -1, q.e1234);
    lemma_mul_binomials(lp.k, lq.i, 1, p.e14, 1, p.e23, 1, q.e12, 1, q.e34);
    lemma_mul_binomials(lp.k, lq.j, 1, p.e14, 1, p.e23, 1, q.e24, -1, q.e13);
    lemma_mul_binomials(lp.k, lq.k, 1, p.e14, 1, p.e23, 1, q.e14, 1, q.e23);
}

/// Taking the right half turns the geometric product into the quaternion
/// product in the opposite order.
pub proof fn lemma_right_half_of_product(p: RotorModel, q: RotorModel)
    ensures
        right_half(product(p, q)) == quat_mul(right_half(q), right_half(p)),
{
    let rq = right_half(q);
    let rp = right_half(p);
    lemma_mul_binomials(rq.re, rp.re, 1, q.s, 1, q.e1234, 1, p.s, 1, p.e1234);
    lemma_mul_binomials(rq.re, rp.i, 1, q.s, 1, q.e1234, 1, p.e12, -1, p.e34);
    lemma_mul_binomials(rq.re, rp.j, 1, q.s, 1, q.e1234, -1, p.e13, -1, p.e24);
    lemma_mul_binomials(rq.re, rp.k, 1, q.s, 1, q.e1234, 1, p.e14, -1, p.e23);
    lemma_mul_binomials(rq.i, rp.re, 1, q.e12, -1, q.e34, 1, p.s, 1, p.e1234);
    lemma_mul_binomials(rq.i, rp.i, 1, q.e12, -1, q.e34, 1, p.e12, -1, p.e34);
    lemma_mul_binomials(rq.i, rp.j, 1, q.e12, -1, q.e34, -1, p.e13, -1, p.e24);
    lemma_mul_binomials(rq.i, rp.k, 1, q.e12, -1, q.e34, 1, p.e14, -1, p.e23);
    lemma_mul_binomials(rq.j, rp.re, -1, q.e13, -1, q.e24, 1, p.s, 1, p.e1234);
    lemma_mul_binomials(rq.j, rp.i, -1, q.e13, -1, q.e24, 1, p.e12, -1, p.e34);
    lemma_mul_binomials(rq.j, rp.j, -1, q.e13, -1, q.e24, -1, p.e13, -1, p.e24);
    lemma_mul_binomials(rq.j, rp.k, -1, q.e13, -1, q.e24, 1, p.e14, -1, p.e23);
    lemma_mul_binomials(rq.k, rp.re, 1, q.e14, -1, q.e23, 1, p.s, 1, p.e1234);
    lemma_mul_binomials(rq.k, rp.i, 1, q.e14, -1, q.e23, 1, p.e12, -1, p.e34);
    lemma_mul_binomials(rq.k, rp.j, 1, q.e14, -1, q.e23, -1, p.e13, -1, p.e24);
    lemma_mul_binomials(rq.k, rp.k, 1, q.e14, -1, q.e23, 1, p.e14, -1, p.e23);
}

/// A rotor is determined by its two halves.
pub proof fn lemma_halves_determine_rotor(p: RotorModel, q: RotorModel)
    requires
        left_half(p) == left_half(q),
        right_half(p) == right_half(q),
    ensures
        p == q,
{
}

/// Reversion conjugates both halves.
pub proof fn lemma_halves_of_reverse(r: RotorModel)
    ensures
        left_half(reverse(r)) == quat_conj(left_half(r)),
        right_half(reverse(r)) == quat_conj(right_half(r)),
{
}

/// The squared norms of the halves are `norm_sq - pseudo` and
/// `norm_sq + pseudo`.
pub proof fn lemma_norms_of_halves(r: RotorModel)
    ensures
        quat_norm_sq(left_half(r)) == norm_sq(r) - pseudo(r),
        quat_norm_sq(right_half(r)) == norm_sq(r) + pseudo(r),
{
    let l = left_half(r);
    lemma_mul_binomials(l.re, l.re, 1, r.s, -1, r.e1234, 1, r.s, -1, r.e1234);
    lemma_mul_binomials(l.i, l.i, 1, r.e12, 1, r.e34, 1, r.e12, 1, r.e34);
    lemma_mul_binomials(l.j, l.j, 1, r.e24, -1, r.e13, 1, r.e24, -1, r.e13);
    lemma_mul_binomials(l.k, l.k, 1, r.e14, 1, r.e23, 1, r.e14, 1, r.e23);
    let t = right_half(r);
    lemma_mul_binomials(t.re, t.re, 1, r.s, 1, r.e1234, 1, r.s, 1, r.e1234);
    lemma_mul_binomials(t.i, t.i, 1, r.e12, -1, r.e34, 1, r.e12, -1, r.e34);
    lemma_mul_binomials(t.j, t.j, -1, r.e13, -1, r.e24, -1, r.e13, -1, r.e24);
    lemma_mul_binomials(t.k, t.k, 1, r.e14, -1, r.e23, 1, r.e14, -1, r.e23);
}

} // verus!
