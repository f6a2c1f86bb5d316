//! Quaternions over the integers.
//!
//! The even subalgebra of the geometric algebra of four-dimensional Euclidean
//! space splits into two commuting copies of the quaternions, and a 4D vector
//! can itself be read as a quaternion. Everything the rotor laws need is
//! therefore a statement about quaternion multiplication, proved here once.
use crate::arith::{
    lemma_expand_left, lemma_expand_right, lemma_expand_terms, lemma_expand_two,
    lemma_mul_distributes_over_difference, lemma_mul_reassociate, lemma_mul_signs,
    lemma_mul_swap,
};
use vstd::prelude::*;

verus! {

/// A quaternion `re + i·I + j·J + k·K` with integer coefficients.
pub struct Quaternion {
    pub re: int,
    pub i: int,
    pub j: int,
    pub k: int,
}

/// Hamilton's product.
pub open spec fn quat_mul(a: Quaternion, b: Quaternion) -> Quaternion {
    Quaternion {
        re: a.re * b.re - a.i * b.i - a.j * b.j - a.k * b.k,
        i: a.re * b.i + a.i * b.re + a.j * b.k - a.k * b.j,
        j: a.re * b.j - a.i * b.k + a.j * b.re + a.k * b.i,
        k: a.re * b.k + a.i * b.j - a.j * b.i + a.k * b.re,
    }
}

/// The real quaternion `k`.
pub open spec fn quat_real(k: int) -> Quaternion {
    Quaternion { re: k, i: 0, j: 0, k: 0 }
}

/// Every coefficient multiplied by `k`.
pub open spec fn quat_scale(a: Quaternion, k: int) -> Quaternion {
    Quaternion { re: a.re * k, i: a.i * k, j: a.j * k, k: a.k * k }
}

/// The conjugate: the three imaginary coefficients change sign.
pub open spec fn quat_conj(a: Quaternion) -> Quaternion {
    Quaternion { re: a.re, i: -a.i, j: -a.j, k: -a.k }
}

/// The difference of two quaternions.
pub open spec fn quat_sub(a: Quaternion, b: Quaternion) -> Quaternion {
    Quaternion { re: a.re - b.re, i: a.i - b.i, j: a.j - b.j, k: a.k - b.k }
}

/// Every coefficient of `a` has magnitude at most `l`.
pub open spec fn quat_within(a: Quaternion, l: int) -> bool {
    &&& -l <= a.re <= l
    &&& -l <= a.i <= l
    &&& -l <= a.j <= l
    &&& -l <= a.k <= l
}

/// Sum of the squares of the four coefficients.
pub open spec fn quat_norm_sq(a: Quaternion) -> int {
    a.re * a.re + a.i * a.i + a.j * a.j + a.k * a.k
}

/// The four coefficients of `a·b`, each multiplied by `k`, as sums of monomials
/// `(a_·b_)·k`.
pub proof fn lemma_quat_mul_then_scale(a: Quaternion, b: Quaternion, k: int)
    ensures
        quat_mul(a, b).re * k == (a.re * b.re) * k - (a.i * b.i) * k - (a.j * b.j) * k - (a.k
            * b.k) * k,
        quat_mul(a, b).i * k == (a.re * b.i) * k + (a.i * b.re) * k + (a.j * b.k) * k - (a.k
            * b.j) * k,
        quat_mul(a, b).j * k == (a.re * b.j) * k - (a.i * b.k) * k + (a.j * b.re) * k + (a.k
            * b.i) * k,
        quat_mul(a, b).k * k == (a.re * b.k) * k + (a.i * b.j) * k - (a.j * b.i) * k + (a.k
            * b.re) * k,
{
    let m = quat_mul(a, b);
    lemma_expand_right(m.re, k, 1, a.re, b.re, -1, a.i, b.i, -1, a.j, b.j, -1, a.k, b.k);
    lemma_expand_right(m.i, k, 1, a.re, b.i, 1, a.i, b.re, 1, a.j, b.k, -1, a.k, b.j);
    lemma_expand_right(m.j, k, 1, a.re, b.j, -1, a.i, b.k, 1, a.j, b.re, 1, a.k, b.i);
    lemma_expand_right(m.k, k, 1, a.re, b.k, 1, a.i, b.j, -1, a.j, b.i, 1, a.k, b.re);
}

/// `k` multiplied by each coefficient of `b·c`, as sums of monomials
/// `(k·b_)·c_`.
pub proof fn lemma_scale_then_quat_mul(k: int, b: Quaternion, c: Quaternion)
    ensures
        k * quat_mul(b, c).re == (k * b.re) * c.re - (k * b.i) * c.i - (k * b.j) * c.j - (k
            * b.k) * c.k,
        k * quat_mul(b, c).i == (k * b.re) * c.i + (k * b.i) * c.re + (k * b.j) * c.k - (k
            * b.k) * c.j,
        k * quat_mul(b, c).j == (k * b.re) * c.j - (k * b.i) * c.k + (k * b.j) * c.re + (k
            * b.k) * c.i,
        k * quat_mul(b, c).k == (k * b.re) * c.k + (k * b.i) * c.j - (k * b.j) * c.i + (k
            * b.k) * c.re,
{
    let n = quat_mul(b, c);
    lemma_expand_left(k, n.re, 1, b.re, c.re, -1, b.i, c.i, -1, b.j, c.j, -1, b.k, c.k);
    lemma_expand_left(k, n.i, 1, b.re, c.i, 1, b.i, c.re, 1, b.j, c.k, -1, b.k, c.j);
    lemma_expand_left(k, n.j, 1, b.re, c.j, -1, b.i, c.k, 1, b.j, c.re, 1, b.k, c.i);
    lemma_expand_left(k, n.k, 1, b.re, c.k, 1, b.i, c.j, -1, b.j, c.i, 1, b.k, c.re);
}

/// Quaternion multiplication is associative.
pub proof fn lemma_quat_mul_assoc(a: Quaternion, b: Quaternion, c: Quaternion)
    ensures
        quat_mul(quat_mul(a, b), c) == quat_mul(a, quat_mul(b, c)),
{
    lemma_quat_mul_then_scale(a, b, c.re);
    lemma_quat_mul_then_scale(a, b, c.i);
    lemma_quat_mul_then_scale(a, b, c.j);
    lemma_quat_mul_then_scale(a, b, c.k);
    lemma_scale_then_quat_mul(a.re, b, c);
    lemma_scale_then_quat_mul(a.i, b, c);
    lemma_scale_then_quat_mul(a.j, b, c);
    lemma_scale_then_quat_mul(a.k, b, c);
}

/// Multiplying by a real quaternion, on either side, scales every coefficient.
pub proof fn lemma_quat_mul_real(k: int, b: Quaternion)
    ensures
        quat_mul(quat_real(k), b) == quat_scale(b, k),
        quat_mul(b, quat_real(k)) == quat_scale(b, k),
{
    let a = quat_real(k);
    assert(a.re * b.re - a.i * b.i - a.j * b.j - a.k * b.k == b.re * k
        && a.re * b.i + a.i * b.re + a.j * b.k - a.k * b.j == b.i * k
        && a.re * b.j - a.i * b.k + a.j * b.re + a.k * b.i == b.j * k
        && a.re * b.k + a.i * b.j - a.j * b.i + a.k * b.re == b.k * k) by (nonlinear_arith)
        requires
            a.re == k,
            a.i == 0,
            a.j == 0,
            a.k == 0,
    ;
    assert(b.re * a.re - b.i * a.i - b.j * a.j - b.k * a.k == b.re * k
        && b.re * a.i + b.i * a.re + b.j * a.k - b.k * a.j == b.i * k
        && b.re * a.j - b.i * a.k + b.j * a.re + b.k * a.i == b.j * k
        && b.re * a.k + b.i * a.j - b.j * a.i + b.k * a.re == b.k * k) by (nonlinear_arith)
        requires
            a.re == k,
            a.i == 0,
            a.j == 0,
            a.k == 0,
    ;
}

/// A quaternion times its conjugate, in either order, is its squared norm.
pub proof fn lemma_quat_mul_conj(a: Quaternion)
    ensures
        quat_mul(quat_conj(a), a) == quat_real(quat_norm_sq(a)),
        quat_mul(a, quat_conj(a)) == quat_real(quat_norm_sq(a)),
{
    lemma_mul_signs(a.i, a.re);
    lemma_mul_signs(a.j, a.re);
    lemma_mul_signs(a.k, a.re);
    lemma_mul_signs(a.re, a.i);
    lemma_mul_signs(a.re, a.j);
    lemma_mul_signs(a.re, a.k);
    lemma_mul_signs(a.i, a.i);
    lemma_mul_signs(a.j, a.j);
    lemma_mul_signs(a.k, a.k);
    lemma_mul_signs(a.i, a.j);
    lemma_mul_signs(a.j, a.i);
    lemma_mul_signs(a.i, a.k);
    lemma_mul_signs(a.k, a.i);
    lemma_mul_signs(a.j, a.k);
    lemma_mul_signs(a.k, a.j);
}

/// A scale factor on the right operand can be taken out of a product.
pub proof fn lemma_quat_mul_scaled(a: Quaternion, b: Quaternion, k: int)
    ensures
        quat_mul(a, quat_scale(b, k)) == quat_scale(quat_mul(a, b), k),
{
    lemma_quat_mul_then_scale(a, b, k);
    lemma_mul_reassociate(a.re, b.re, k);
    lemma_mul_reassociate(a.re, b.i, k);
    lemma_mul_reassociate(a.re, b.j, k);
    lemma_mul_reassociate(a.re, b.k, k);
    lemma_mul_reassociate(a.i, b.re, k);
    lemma_mul_reassociate(a.i, b.i, k);
    lemma_mul_reassociate(a.i, b.j, k);
    lemma_mul_reassociate(a.i, b.k, k);
    lemma_mul_reassociate(a.j, b.re, k);
    lemma_mul_reassociate(a.j, b.i, k);
    lemma_mul_reassociate(a.j, b.j, k);
    lemma_mul_reassociate(a.j, b.k, k);
    lemma_mul_reassociate(a.k, b.re, k);
    lemma_mul_reassociate(a.k, b.i, k);
    lemma_mul_reassociate(a.k, b.j, k);
    lemma_mul_reassociate(a.k, b.k, k);
}

/// The conjugate of a product is the product of the conjugates in the opposite
/// order.
pub proof fn lemma_quat_conj_of_product(a: Quaternion, b: Quaternion)
    ensures
        quat_conj(quat_mul(a, b)) == quat_mul(quat_conj(b), quat_conj(a)),
{
    lemma_mul_signs(b.re, a.re);
    lemma_mul_signs(b.re, a.i);
    lemma_mul_signs(b.re, a.j);
    lemma_mul_signs(b.re, a.k);
    lemma_mul_signs(b.i, a.re);
    lemma_mul_signs(b.j, a.re);
    lemma_mul_signs(b.k, a.re);
    lemma_mul_signs(b.i, a.i);
    lemma_mul_signs(b.i, a.j);
    lemma_mul_signs(b.i, a.k);
    lemma_mul_signs(b.j, a.i);
    lemma_mul_signs(b.j, a.j);
    lemma_mul_signs(b.j, a.k);
    lemma_mul_signs(b.k, a.i);
    lemma_mul_signs(b.k, a.j);
    lemma_mul_signs(b.k, a.k);
}

/// The squared norm is multiplicative.
pub proof fn lemma_quat_norm_of_product(a: Quaternion, b: Quaternion)
    ensures
        quat_norm_sq(quat_mul(a, b)) == quat_norm_sq(a) * quat_norm_sq(b),
{
    let ab = quat_mul(a, b);
    let ca = quat_conj(a);
    let cb = quat_conj(b);
    let na = quat_norm_sq(a);
    let nb = quat_norm_sq(b);
    // conj(ab) (ab) = conj(b) ((conj(a) a) b) = conj(b) (na b) = na (conj(b) b)
    lemma_quat_mul_conj(ab);
    lemma_quat_conj_of_product(a, b);
    lemma_quat_mul_assoc(cb, ca, ab);
    lemma_quat_mul_assoc(ca, a, b);
    lemma_quat_mul_conj(a);
    lemma_quat_mul_real(na, b);
    lemma_quat_mul_scaled(cb, b, na);
    lemma_quat_mul_conj(b);
    assert(quat_mul(quat_conj(ab), ab) == quat_scale(quat_real(nb), na));
    assert(nb * na == na * nb) by (nonlinear_arith);
}

/// Two quaternions with the same single imaginary part multiply as complex
/// numbers do.
pub proof fn lemma_quat_mul_planar(a: Quaternion, b: Quaternion)
    ensures
        a.j == 0 && a.k == 0 && b.j == 0 && b.k == 0 ==> quat_mul(a, b) == (Quaternion {
            re: a.re * b.re - a.i * b.i,
            i: a.re * b.i + a.i * b.re,
            j: 0,
            k: 0,
        }),
        a.i == 0 && a.k == 0 && b.i == 0 && b.k == 0 ==> quat_mul(a, b) == (Quaternion {
            re: a.re * b.re - a.j * b.j,
            i: 0,
            j: a.re * b.j + a.j * b.re,
            k: 0,
        }),
        a.i == 0 && a.j == 0 && b.i == 0 && b.j == 0 ==> quat_mul(a, b) == (Quaternion {
            re: a.re * b.re - a.k * b.k,
            i: 0,
            j: 0,
            k: a.re * b.k + a.k * b.re,
        }),
{
    if a.j == 0 && a.k == 0 && b.j == 0 && b.k == 0 {
        assert(a.j * b.j == 0 && a.k * b.k == 0 && a.j * b.k == 0 && a.k * b.j == 0 && a.re
            * b.j == 0 && a.i * b.k == 0 && a.j * b.re == 0 && a.k * b.i == 0 && a.re * b.k == 0
            && a.i * b.j == 0 && a.j * b.i == 0 && a.k * b.re == 0) by (nonlinear_arith)
            requires
                a.j == 0 && a.k == 0 && b.j == 0 && b.k == 0,
        ;
    }
    if a.i == 0 && a.k == 0 && b.i == 0 && b.k == 0 {
        assert(a.i * b.i == 0 && a.k * b.k == 0 && a.re * b.i == 0 && a.i * b.re == 0 && a.j
            * b.k == 0 && a.k * b.j == 0 && a.i * b.k == 0 && a.k * b.i == 0 && a.re * b.k == 0
            && a.i * b.j == 0 && a.j * b.i == 0 && a.k * b.re == 0) by (nonlinear_arith)
            requires
                a.i == 0 && a.k == 0 && b.i == 0 && b.k == 0,
        ;
    }
    if a.i == 0 && a.j == 0 && b.i == 0 && b.j == 0 {
        assert(a.i * b.i == 0 && a.j * b.j == 0 && a.re * b.i == 0 && a.i * b.re == 0 && a.j
            * b.k == 0 && a.k * b.j == 0 && a.re * b.j == 0 && a.i * b.k == 0 && a.j * b.re == 0
            && a.k * b.i == 0 && a.i * b.j == 0 && a.j * b.i == 0) by (nonlinear_arith)
            requires
                a.i == 0 && a.j == 0 && b.i == 0 && b.j == 0,
        ;
    }
}

/// The quaternion with its three imaginary parts moved on by one place: the
/// algebra has no preferred one among them.
pub open spec fn quat_cycle(q: Quaternion) -> Quaternion {
    Quaternion { re: q.re, i: q.k, j: q.i, k: q.j }
}

/// Moving the imaginary parts on commutes with multiplication.
pub proof fn lemma_quat_cycle_of_product(a: Quaternion, b: Quaternion)
    ensures
        quat_mul(quat_cycle(a), quat_cycle(b)) == quat_cycle(quat_mul(a, b)),
{
}

/// The quaternion that acts on the plane of `1` and `I` as the complex number
/// `p + o·I` and on the plane of `J` and `K` as `r + s·I`.
pub open spec fn planar_action(p: int, o: int, r: int, s: int, q: Quaternion) -> Quaternion {
    Quaternion {
        re: p * q.re - o * q.i,
        i: o * q.re + p * q.i,
        j: r * q.j + s * q.k,
        k: r * q.k - s * q.j,
    }
}

/// A quaternion multiplied on both sides by quaternions of the plane of `1`
/// and `I`: the two sides act together as one complex number on that plane, and
/// as another on the plane of `J` and `K`.
pub proof fn lemma_between_planar(l: Quaternion, q: Quaternion, t: Quaternion)
    requires
        l.j == 0 && l.k == 0 && t.j == 0 && t.k == 0,
    ensures
        quat_mul(quat_mul(l, q), t) == planar_action(
            l.re * t.re - l.i * t.i,
            l.re * t.i + l.i * t.re,
            l.re * t.re + l.i * t.i,
            l.re * t.i - l.i * t.re,
            q,
        ),
{
    let m = quat_mul(l, q);
    assert(l.j * q.j == 0 && l.k * q.k == 0 && l.j * q.k == 0 && l.k * q.j == 0 && l.j * q.re
        == 0 && l.k * q.i == 0 && l.j * q.i == 0 && l.k * q.re == 0) by (nonlinear_arith)
        requires
            l.j == 0 && l.k == 0,
    ;
    assert(m.j * t.j == 0 && m.k * t.k == 0 && m.j * t.k == 0 && m.k * t.j == 0 && m.re * t.j
        == 0 && m.i * t.k == 0 && m.re * t.k == 0 && m.i * t.j == 0) by (nonlinear_arith)
        requires
            t.j == 0 && t.k == 0,
    ;
    lemma_expand_two(m.re, t.re, 1, l.re, q.re, -1, l.i, q.i);
    lemma_expand_two(m.i, t.i, 1, l.re, q.i, 1, l.i, q.re);
    lemma_expand_two(m.re, t.i, 1, l.re, q.re, -1, l.i, q.i);
    lemma_expand_two(m.i, t.re, 1, l.re, q.i, 1, l.i, q.re);
    lemma_expand_two(m.j, t.re, 1, l.re, q.j, -1, l.i, q.k);
    lemma_expand_two(m.k, t.i, 1, l.re, q.k, 1, l.i, q.j);
    lemma_expand_two(m.j, t.i, 1, l.re, q.j, -1, l.i, q.k);
    lemma_expand_two(m.k, t.re, 1, l.re, q.k, 1, l.i, q.j);
    lemma_expand_terms(1, l.re * t.re, -1, l.i * t.i, q.re);
    lemma_expand_terms(1, l.re * t.i, 1, l.i * t.re, q.i);
    lemma_expand_terms(1, l.re * t.i, 1, l.i * t.re, q.re);
    lemma_expand_terms(1, l.re * t.re, -1, l.i * t.i, q.i);
    lemma_expand_terms(1, l.re * t.re, 1, l.i * t.i, q.j);
    lemma_expand_terms(1, l.re * t.i, -1, l.i * t.re, q.k);
    lemma_expand_terms(1, l.re * t.i, -1, l.i * t.re, q.j);
    lemma_expand_terms(1, l.re * t.re, 1, l.i * t.i, q.k);
}

/// Multiplication distributes over a difference in the left factor.
pub proof fn lemma_quat_mul_sub_left(a: Quaternion, c: Quaternion, b: Quaternion)
    ensures
        quat_mul(quat_sub(a, c), b) == quat_sub(quat_mul(a, b), quat_mul(c, b)),
{
    lemma_mul_distributes_over_difference(a.re, c.re, b.re);
    lemma_mul_distributes_over_difference(a.re, c.re, b.i);
    lemma_mul_distributes_over_difference(a.re, c.re, b.j);
    lemma_mul_distributes_over_difference(a.re, c.re, b.k);
    lemma_mul_distributes_over_difference(a.i, c.i, b.re);
    lemma_mul_distributes_over_difference(a.i, c.i, b.i);
    lemma_mul_distributes_over_difference(a.i, c.i, b.j);
    lemma_mul_distributes_over_difference(a.i, c.i, b.k);
    lemma_mul_distributes_over_difference(a.j, c.j, b.re);
    lemma_mul_distributes_over_difference(a.j, c.j, b.i);
    lemma_mul_distributes_over_difference(a.j, c.j, b.j);
    lemma_mul_distributes_over_difference(a.j, c.j, b.k);
    lemma_mul_distributes_over_difference(a.k, c.k, b.re);
    lemma_mul_distributes_over_difference(a.k, c.k, b.i);
    lemma_mul_distributes_over_difference(a.k, c.k, b.j);
    lemma_mul_distributes_over_difference(a.k, c.k, b.k);
}

/// Multiplication distributes over a difference in the right factor.
pub proof fn lemma_quat_mul_sub_right(a: Quaternion, b: Quaternion, c: Quaternion)
    ensures
        quat_mul(a, quat_sub(b, c)) == quat_sub(quat_mul(a, b), quat_mul(a, c)),
{
    lemma_mul_distributes_over_difference(b.re, c.re, a.re);
    lemma_mul_distributes_over_difference(b.re, c.re, a.i);
    lemma_mul_distributes_over_difference(b.re, c.re, a.j);
    lemma_mul_distributes_over_difference(b.re, c.re, a.k);
    lemma_mul_distributes_over_difference(b.i, c.i, a.re);
    lemma_mul_distributes_over_difference(b.i, c.i, a.i);
    lemma_mul_distributes_over_difference(b.i, c.i, a.j);
    lemma_mul_distributes_over_difference(b.i, c.i, a.k);
    lemma_mul_distributes_over_difference(b.j, c.j, a.re);
    lemma_mul_distributes_over_difference(b.j, c.j, a.i);
    lemma_mul_distributes_over_difference(b.j, c.j, a.j);
    lemma_mul_distributes_over_difference(b.j, c.j, a.k);
    lemma_mul_distributes_over_difference(b.k, c.k, a.re);
    lemma_mul_distributes_over_difference(b.k, c.k, a.i);
    lemma_mul_distributes_over_difference(b.k, c.k, a.j);
    lemma_mul_distributes_over_difference(b.k, c.k, a.k);
}

/// A scale factor on the left operand can be taken out of a product.
pub proof fn lemma_quat_mul_scaled_left(a: Quaternion, b: Quaternion, k: int)
    ensures
        quat_mul(quat_scale(a, k), b) == quat_scale(quat_mul(a, b), k),
{
    lemma_quat_mul_then_scale(a, b, k);
    lemma_mul_swap(a.re, b.re, k);
    lemma_mul_swap(a.re, b.i, k);
    lemma_mul_swap(a.re, b.j, k);
    lemma_mul_swap(a.re, b.k, k);
    lemma_mul_swap(a.i, b.re, k);
    lemma_mul_swap(a.i, b.i, k);
    lemma_mul_swap(a.i, b.j, k);
    lemma_mul_swap(a.i, b.k, k);
    lemma_mul_swap(a.j, b.re, k);
    lemma_mul_swap(a.j, b.i, k);
    lemma_mul_swap(a.j, b.j, k);
    lemma_mul_swap(a.j, b.k, k);
    lemma_mul_swap(a.k, b.re, k);
    lemma_mul_swap(a.k, b.i, k);
    lemma_mul_swap(a.k, b.j, k);
    lemma_mul_swap(a.k, b.k, k);
}

/// No coefficient of a quaternion exceeds a bound whose square is at least the
/// squared norm.
pub proof fn lemma_quat_within_norm(a: Quaternion, l: int)
    requires
        l >= 0,
        quat_norm_sq(a) <= l * l,
    ensures
        quat_within(a, l),
{
    lemma_coefficient_within(a.re, a.i * a.i + a.j * a.j + a.k * a.k, l);
    lemma_coefficient_within(a.i, a.re * a.re + a.j * a.j + a.k * a.k, l);
    lemma_coefficient_within(a.j, a.re * a.re + a.i * a.i + a.k * a.k, l);
    lemma_coefficient_within(a.k, a.re * a.re + a.i * a.i + a.j * a.j, l);
    assert(0 <= a.re * a.re && 0 <= a.i * a.i && 0 <= a.j * a.j && 0 <= a.k * a.k)
        by (nonlinear_arith);
}

/// An integer whose square, with something that is not negative, is at most
/// `l²`, is at most `l` in magnitude.
pub proof fn lemma_coefficient_within(c: int, rest: int, l: int)
    by (nonlinear_arith)
    requires
        l >= 0,
    ensures
        rest >= 0 && c * c + rest <= l * l ==> -l <= c <= l,
{
}

} // verus!
