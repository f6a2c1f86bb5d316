//! How far rounding can move the results of the stored operations from those
//! of the exact algebra.
use crate::algebra::{
    as_quaternion, coordinates_within, left_half, lemma_left_half_of_product,
    lemma_norms_of_halves, lemma_right_half_of_product, product, right_half, sandwich,
    vector_difference, RotorModel, VectorModel,
};
use crate::laws::law_sandwich_of_product;
use crate::quaternion::{
    lemma_quat_mul_scaled, lemma_quat_mul_scaled_left, lemma_quat_mul_sub_left,
    lemma_quat_mul_sub_right, lemma_quat_norm_of_product, lemma_quat_within_norm, quat_mul,
    quat_norm_sq, quat_scale, quat_sub, quat_within, Quaternion,
};
use crate::rotor::{composed, is_moderate, rotated, Rotor};
use crate::scalar::{stored, stored_twice, ONE};
use crate::vector::Vector4;
use vstd::prelude::*;

verus! {

/// A product of three numbers that are not negative is at most the product of
/// their bounds.
proof fn lemma_product_of_three_bounded(x: int, y: int, z: int, bx: int, by: int, bz: int)
    by (nonlinear_arith)
    requires
        0 <= x <= bx,
        0 <= y <= by,
        0 <= z <= bz,
    ensures
        (x * y) * z <= (bx * by) * bz,
{
}

/// The squared norm of a quaternion whose coefficients are at most `l` in
/// magnitude is at most `4 l²`.
pub proof fn lemma_norm_of_quat_within(q: Quaternion, l: int)
    requires
        quat_within(q, l),
    ensures
        0 <= quat_norm_sq(q) <= 4 * (l * l),
{
    lemma_square_within(q.re, l);
    lemma_square_within(q.i, l);
    lemma_square_within(q.j, l);
    lemma_square_within(q.k, l);
}

/// The square of an integer of magnitude at most `l`.
proof fn lemma_square_within(c: int, l: int)
    by (nonlinear_arith)
    requires
        -l <= c <= l,
    ensures
        0 <= c * c <= l * l,
{
}

/// No coefficient of a product of three quaternions exceeds a bound whose
/// square is at least the product of bounds of their squared norms.
pub proof fn lemma_triple_within(
    a: Quaternion,
    q: Quaternion,
    t: Quaternion,
    na: int,
    nq: int,
    nt: int,
    l: int,
)
    requires
        quat_norm_sq(a) <= na,
        quat_norm_sq(q) <= nq,
        quat_norm_sq(t) <= nt,
        (na * nq) * nt <= l * l,
        l >= 0,
    ensures
        quat_within(quat_mul(quat_mul(a, q), t), l),
{
    lemma_quat_norm_of_product(a, q);
    lemma_quat_norm_of_product(quat_mul(a, q), t);
    lemma_norm_nonnegative(a);
    lemma_norm_nonnegative(q);
    lemma_norm_nonnegative(t);
    lemma_product_of_three_bounded(
        quat_norm_sq(a),
        quat_norm_sq(q),
        quat_norm_sq(t),
        na,
        nq,
        nt,
    );
    lemma_quat_within_norm(quat_mul(quat_mul(a, q), t), l);
}

/// A squared norm is never negative.
pub proof fn lemma_norm_nonnegative(a: Quaternion)
    ensures
        0 <= quat_norm_sq(a),
{
    assert(0 <= a.re * a.re && 0 <= a.i * a.i && 0 <= a.j * a.j && 0 <= a.k * a.k)
        by (nonlinear_arith);
}

/// What is lost when an exact product of three scalars is stored: less than
/// one unit of the last place, where the product is in range.
pub proof fn lemma_stored_twice_remainder(x: int, m: int)
    requires
        -0x1_0000_0000 * m <= x <= 0x1_0000_0000 * m,
        0 <= m <= i32::MAX,
    ensures
        -m <= stored_twice(x) <= m,
        -0x1_0000_0000 < x - 0x1_0000_0000 * stored_twice(x) < 0x1_0000_0000,
{
    let d = 0x1_0000_0000int;
    assert(ONE as int * ONE as int == d);
    let a = if x >= 0 {
        x
    } else {
        -x
    };
    let t = a / d;
    assert(0 <= t * d <= a < t * d + d) by (nonlinear_arith)
        requires
            a >= 0,
            d > 0,
            t == a / d,
    ;
    assert(t <= m) by (nonlinear_arith)
        requires
            t * d <= a,
            a <= d * m,
            d > 0,
    ;
}

/// What is lost when an exact product of two scalars is stored: less than one
/// unit of the last place, where the product is in range.
pub proof fn lemma_stored_remainder(x: int, m: int)
    requires
        -0x1_0000 * m <= x <= 0x1_0000 * m,
        0 <= m <= i32::MAX,
    ensures
        -m <= stored(x) <= m,
        -0x1_0000 < x - 0x1_0000 * stored(x) < 0x1_0000,
{
    let d = 0x1_0000int;
    let a = if x >= 0 {
        x
    } else {
        -x
    };
    let t = a / d;
    assert(0 <= t * d <= a < t * d + d) by (nonlinear_arith)
        requires
            a >= 0,
            d > 0,
            t == a / d,
    ;
    assert(t <= m) by (nonlinear_arith)
        requires
            t * d <= a,
            a <= d * m,
            d > 0,
    ;
}

/// A rotor of moderate size turns a vector whose coordinates are at most `l`
/// in magnitude into `ONE²` times one whose coordinates are at most `8 l`.
pub proof fn lemma_moderate_sandwich_within(r: RotorModel, q: Quaternion, l: int)
    requires
        is_moderate(r),
        quat_within(q, l),
        l >= 0,
    ensures
        quat_within(quat_mul(quat_mul(left_half(r), q), right_half(r)), 0x8_0000_0000 * l),
{
    lemma_norms_of_halves(r);
    lemma_norm_of_quat_within(q, l);
    assert((0x4_0000_0000int * (4 * (l * l))) * 0x4_0000_0000int == (0x8_0000_0000 * l) * (
    0x8_0000_0000 * l)) by (nonlinear_arith);
    lemma_triple_within(
        left_half(r),
        q,
        right_half(r),
        0x4_0000_0000,
        4 * (l * l),
        0x4_0000_0000,
        0x8_0000_0000 * l,
    );
}

/// Rotating by a rotor of moderate size loses less than one unit of the last
/// place in each coordinate, and makes the largest coordinate at most eight
/// times as large.
pub proof fn lemma_rotated_remainder(r: RotorModel, v: VectorModel, l: int)
    requires
        is_moderate(r),
        quat_within(as_quaternion(v), l),
        0 <= l,
        8 * l <= i32::MAX,
    ensures
        quat_within(as_quaternion(rotated(r, v)), 8 * l),
        quat_within(
            quat_sub(
                as_quaternion(sandwich(r, v)),
                quat_scale(as_quaternion(rotated(r, v)), 0x1_0000_0000),
            ),
            0x1_0000_0000,
        ),
{
    let s = sandwich(r, v);
    lemma_moderate_sandwich_within(r, as_quaternion(v), l);
    lemma_stored_twice_remainder(s.x, 8 * l);
    lemma_stored_twice_remainder(s.y, 8 * l);
    lemma_stored_twice_remainder(s.z, 8 * l);
    lemma_stored_twice_remainder(s.w, 8 * l);
}

/// Rotating by one rotor of moderate size and then by another gives the exact
/// result of both rotations, up to nine units of the last place in each
/// coordinate.
pub proof fn lemma_rotated_twice(a: RotorModel, b: RotorModel, v: VectorModel, l: int)
    requires
        is_moderate(a),
        is_moderate(b),
        quat_within(as_quaternion(v), l),
        0 <= l,
        64 * l <= i32::MAX,
    ensures
        quat_within(
            quat_sub(
                quat_scale(
                    as_quaternion(rotated(b, rotated(a, v))),
                    0x1_0000_0000_0000_0000,
                ),
                as_quaternion(sandwich(b, sandwich(a, v))),
            ),
            0x9_0000_0000_0000_0000,
        ),
{
    let d = 0x1_0000_0000int;
    let lb = left_half(b);
    let rb = right_half(b);
    let sv = as_quaternion(sandwich(a, v));
    let w = rotated(a, v);
    let wq = as_quaternion(w);
    lemma_rotated_remainder(a, v, l);
    lemma_rotated_remainder(b, w, 8 * l);
    // What the first rotation lost.
    let lost = quat_sub(sv, quat_scale(wq, d));
    assert(quat_scale(wq, d) == quat_sub(sv, lost));
    // The exact second rotation of the stored first one, times ONE².
    let t = as_quaternion(sandwich(b, w));
    lemma_quat_mul_scaled(lb, wq, d);
    lemma_quat_mul_scaled_left(quat_mul(lb, wq), rb, d);
    lemma_quat_mul_sub_right(lb, sv, lost);
    lemma_quat_mul_sub_left(quat_mul(lb, sv), quat_mul(lb, lost), rb);
    let z = quat_mul(quat_mul(lb, sv), rb);
    let e = quat_mul(quat_mul(lb, lost), rb);
    assert(quat_scale(t, d) == quat_sub(z, e));
    assert(z == as_quaternion(sandwich(b, sandwich(a, v))));
    lemma_moderate_sandwich_within(b, lost, d);
}

/// The halves of the product of two rotors of moderate size have squared
/// norms of at most `16 ONE⁴`, and none of its coefficients exceeds `4 ONE²`.
pub proof fn lemma_product_of_moderate(a: RotorModel, b: RotorModel)
    requires
        is_moderate(a),
        is_moderate(b),
    ensures
        quat_norm_sq(left_half(product(b, a))) <= 0x10_0000_0000_0000_0000,
        quat_norm_sq(right_half(product(b, a))) <= 0x10_0000_0000_0000_0000,
        ({
            let p = product(b, a);
            &&& -0x4_0000_0000 <= p.s <= 0x4_0000_0000
            &&& -0x4_0000_0000 <= p.e12 <= 0x4_0000_0000
            &&& -0x4_0000_0000 <= p.e13 <= 0x4_0000_0000
            &&& -0x4_0000_0000 <= p.e14 <= 0x4_0000_0000
            &&& -0x4_0000_0000 <= p.e23 <= 0x4_0000_0000
            &&& -0x4_0000_0000 <= p.e24 <= 0x4_0000_0000
            &&& -0x4_0000_0000 <= p.e34 <= 0x4_0000_0000
            &&& -0x4_0000_0000 <= p.e1234 <= 0x4_0000_0000
        }),
{
    let p = product(b, a);
    lemma_norms_of_halves(a);
    lemma_norms_of_halves(b);
    lemma_left_half_of_product(b, a);
    lemma_right_half_of_product(b, a);
    lemma_quat_norm_of_product(left_half(b), left_half(a));
    lemma_quat_norm_of_product(right_half(a), right_half(b));
    lemma_norm_nonnegative(left_half(a));
    lemma_norm_nonnegative(left_half(b));
    lemma_norm_nonnegative(right_half(a));
    lemma_norm_nonnegative(right_half(b));
    lemma_product_of_three_bounded(
        quat_norm_sq(left_half(b)),
        quat_norm_sq(left_half(a)),
        1,
        0x4_0000_0000,
        0x4_0000_0000,
        1,
    );
    lemma_product_of_three_bounded(
        quat_norm_sq(right_half(a)),
        quat_norm_sq(right_half(b)),
        1,
        0x4_0000_0000,
        0x4_0000_0000,
        1,
    );
    assert(0x4_0000_0000int * 0x4_0000_0000int == 0x10_0000_0000_0000_0000);
    lemma_quat_within_norm(left_half(p), 0x4_0000_0000);
    lemma_quat_within_norm(right_half(p), 0x4_0000_0000);
}

/// Rotating by the stored composition of two rotors of moderate size gives the
/// exact result of rotating by their product, up to one unit of the last place
/// and a 1023rd of the largest coordinate.
pub proof fn lemma_rotated_by_composed(a: RotorModel, b: RotorModel, v: VectorModel, l: int)
    requires
        is_moderate(a),
        is_moderate(b),
        quat_within(as_quaternion(v), l),
        0 <= l,
        64 * l <= i32::MAX,
    ensures
        quat_within(
            quat_sub(
                quat_scale(
                    as_quaternion(rotated(composed(b, a), v)),
                    0x1_0000_0000_0000_0000,
                ),
                as_quaternion(sandwich(product(b, a), v)),
            ),
            0x1_0000_0000_0000_0000 + 0x40_0020_0000_0000 * l,
        ),
{
    let one = 0x1_0000int;
    let p = product(b, a);
    let c = composed(b, a);
    let x = as_quaternion(v);
    lemma_product_of_moderate(a, b);
    lemma_stored_remainder(p.s, 0x4_0000);
    lemma_stored_remainder(p.e12, 0x4_0000);
    lemma_stored_remainder(p.e13, 0x4_0000);
    lemma_stored_remainder(p.e14, 0x4_0000);
    lemma_stored_remainder(p.e23, 0x4_0000);
    lemma_stored_remainder(p.e24, 0x4_0000);
    lemma_stored_remainder(p.e34, 0x4_0000);
    lemma_stored_remainder(p.e1234, 0x4_0000);
    // The halves of the stored composition, times ONE, are those of the exact
    // product less what was lost.
    let lp = left_half(p);
    let rp = right_half(p);
    let lc = left_half(c);
    let rc = right_half(c);
    let ll = quat_sub(lp, quat_scale(lc, one));
    let rl = quat_sub(rp, quat_scale(rc, one));
    assert(quat_within(ll, 0x2_0000) && quat_within(rl, 0x2_0000));
    assert(quat_scale(lc, one) == quat_sub(lp, ll));
    assert(quat_scale(rc, one) == quat_sub(rp, rl));
    // The exact rotation by the stored composition, times ONE².
    let u = as_quaternion(sandwich(c, v));
    lemma_quat_mul_scaled_left(lc, x, one);
    lemma_quat_mul_scaled_left(quat_mul(lc, x), rc, one);
    lemma_quat_mul_scaled(quat_scale(quat_mul(lc, x), one), rc, one);
    assert(quat_mul(quat_mul(quat_scale(lc, one), x), quat_scale(rc, one)) == quat_scale(
        quat_scale(u, one),
        one,
    ));
    let a1 = quat_mul(lp, x);
    let a2 = quat_mul(ll, x);
    lemma_quat_mul_sub_left(lp, ll, x);
    lemma_quat_mul_sub_left(a1, a2, quat_sub(rp, rl));
    lemma_quat_mul_sub_right(a1, rp, rl);
    lemma_quat_mul_sub_right(a2, rp, rl);
    let z = quat_mul(a1, rp);
    let e2 = quat_mul(a2, rp);
    let e3 = quat_mul(a1, rl);
    let e4 = quat_mul(a2, rl);
    assert(quat_scale(quat_scale(u, one), one) == quat_sub(quat_sub(z, e3), quat_sub(e2, e4)));
    // The sizes of the four parts.
    lemma_norm_of_quat_within(x, l);
    lemma_norm_of_quat_within(ll, 0x2_0000);
    lemma_norm_of_quat_within(rl, 0x2_0000);
    assert(4 * (0x2_0000int * 0x2_0000int) == 0x10_0000_0000);
    let n = 4 * (l * l);
    assert((0x10_0000_0000_0000_0000int * n) * 0x10_0000_0000_0000_0000int == (
    0x20_0000_0000_0000_0000 * l) * (0x20_0000_0000_0000_0000 * l)
        && (0x10_0000_0000int * n) * 0x10_0000_0000_0000_0000int == (0x20_0000_0000_0000 * l) * (
    0x20_0000_0000_0000 * l)
        && (0x10_0000_0000_0000_0000int * n) * 0x10_0000_0000int == (0x20_0000_0000_0000 * l) * (
    0x20_0000_0000_0000 * l)
        && (0x10_0000_0000int * n) * 0x10_0000_0000int == (0x20_0000_0000 * l) * (0x20_0000_0000
        * l)) by (nonlinear_arith)
        requires
            n == 4 * (l * l),
    ;
    lemma_triple_within(
        lp,
        x,
        rp,
        0x10_0000_0000_0000_0000,
        n,
        0x10_0000_0000_0000_0000,
        0x20_0000_0000_0000_0000 * l,
    );
    lemma_triple_within(
        ll,
        x,
        rp,
        0x10_0000_0000,
        n,
        0x10_0000_0000_0000_0000,
        0x20_0000_0000_0000 * l,
    );
    lemma_triple_within(
        lp,
        x,
        rl,
        0x10_0000_0000_0000_0000,
        n,
        0x10_0000_0000,
        0x20_0000_0000_0000 * l,
    );
    lemma_triple_within(ll, x, rl, 0x10_0000_0000, n, 0x10_0000_0000, 0x20_0000_0000 * l);
    assert(z == as_quaternion(sandwich(p, v)));
    // Nothing saturates, and storing loses less than one unit.
    let s = sandwich(c, v);
    assert(quat_within(u, 0x1_0000_0000 * (33 * l)));
    lemma_stored_twice_remainder(s.x, 33 * l);
    lemma_stored_twice_remainder(s.y, 33 * l);
    lemma_stored_twice_remainder(s.z, 33 * l);
    lemma_stored_twice_remainder(s.w, 33 * l);
}

/// Rotating by a rotor and then by another is rotating once by their
/// composition, up to rounding: for rotors of moderate size the two results
/// differ in no coordinate by more than eleven units of the last place and a
/// thousandth of the largest coordinate `l` of the vector.
pub proof fn law_rotate_by_composition(a: Rotor, b: Rotor, v: Vector4, l: int)
    requires
        is_moderate(a@),
        is_moderate(b@),
        coordinates_within(v@, l),
        64 * l <= i32::MAX,
    ensures
        coordinates_within(
            vector_difference(
                rotated(b@, rotated(a@, v@)),
                rotated(composed(b@, a@), v@),
            ),
            11 + l / 1000,
        ),
{
    assert(0 <= l);
    lemma_rotated_twice(a@, b@, v@, l);
    lemma_rotated_by_composed(a@, b@, v@, l);
    law_sandwich_of_product(b@, a@, v@);
}

} // verus!
