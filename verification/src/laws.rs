//! The laws of the exact rotor algebra: what composition, reversion and the
//! sandwich product satisfy before any rounding.
use crate::algebra::{
    as_quaternion, conjugated_by_e1, embedded, left_half, lemma_halves_determine_rotor, lemma_halves_of_reverse,
    lemma_left_half_of_product, lemma_norms_of_halves, lemma_right_half_of_product, norm_rotor,
    dot, norm_sq, plane_model, product, pseudo, reverse, right_half, sandwich, scalar_rotor,
    scale_vector, Plane, RotorModel, VectorModel,
};
use crate::arith::{
    lemma_mul_binomials, lemma_mul_by_zero, lemma_mul_commutes, lemma_mul_reassociate,
    lemma_mul_signs,
};
use crate::quaternion::{
    lemma_between_planar, lemma_quat_conj_of_product, lemma_quat_cycle_of_product,
    lemma_quat_mul_assoc, lemma_quat_mul_conj, lemma_quat_mul_planar, lemma_quat_mul_real,
    lemma_quat_norm_of_product, quat_conj, quat_cycle, quat_mul, quat_norm_sq, Quaternion,
};
use vstd::prelude::*;

verus! {

/// The geometric product is associative.
pub proof fn law_product_associative(a: RotorModel, b: RotorModel, c: RotorModel)
    ensures
        product(product(a, b), c) == product(a, product(b, c)),
{
    lemma_left_half_of_product(product(a, b), c);
    lemma_left_half_of_product(a, b);
    lemma_left_half_of_product(a, product(b, c));
    lemma_left_half_of_product(b, c);
    lemma_quat_mul_assoc(left_half(a), left_half(b), left_half(c));
    lemma_right_half_of_product(product(a, b), c);
    lemma_right_half_of_product(a, b);
    lemma_right_half_of_product(a, product(b, c));
    lemma_right_half_of_product(b, c);
    lemma_quat_mul_assoc(right_half(c), right_half(b), right_half(a));
    lemma_halves_determine_rotor(product(product(a, b), c), product(a, product(b, c)));
}

/// Reversion is an involution that reverses the order of a product.
pub proof fn law_reverse_of_product(p: RotorModel, q: RotorModel)
    ensures
        reverse(reverse(p)) == p,
        reverse(product(p, q)) == product(reverse(q), reverse(p)),
{
    lemma_halves_of_reverse(product(p, q));
    lemma_halves_of_reverse(p);
    lemma_halves_of_reverse(q);
    lemma_left_half_of_product(p, q);
    lemma_right_half_of_product(p, q);
    lemma_left_half_of_product(reverse(q), reverse(p));
    lemma_right_half_of_product(reverse(q), reverse(p));
    lemma_quat_conj_of_product(left_half(p), left_half(q));
    lemma_quat_conj_of_product(right_half(q), right_half(p));
    lemma_halves_determine_rotor(reverse(product(p, q)), product(reverse(q), reverse(p)));
}

/// A rotor multiplied by its reverse, in either order, has no bivector part:
/// the scalar part is the squared norm and the pseudoscalar part is `pseudo`.
pub proof fn law_product_with_reverse(r: RotorModel)
    ensures
        product(reverse(r), r) == norm_rotor(r),
        product(r, reverse(r)) == norm_rotor(r),
{
    lemma_halves_of_reverse(r);
    lemma_norms_of_halves(r);
    lemma_quat_mul_conj(left_half(r));
    lemma_quat_mul_conj(right_half(r));
    lemma_left_half_of_product(reverse(r), r);
    lemma_right_half_of_product(reverse(r), r);
    lemma_halves_determine_rotor(product(reverse(r), r), norm_rotor(r));
    lemma_left_half_of_product(r, reverse(r));
    lemma_right_half_of_product(r, reverse(r));
    lemma_halves_determine_rotor(product(r, reverse(r)), norm_rotor(r));
}

/// The squared norm and the pseudoscalar part of a product, from those of the
/// factors. In particular, where both factors have zero pseudoscalar part, so
/// has the product, and its squared norm is the product of theirs.
pub proof fn law_norm_of_product(p: RotorModel, q: RotorModel)
    ensures
        norm_sq(product(p, q)) == norm_sq(p) * norm_sq(q) + pseudo(p) * pseudo(q),
        pseudo(product(p, q)) == norm_sq(p) * pseudo(q) + pseudo(p) * norm_sq(q),
{
    let pq = product(p, q);
    lemma_norms_of_halves(pq);
    lemma_norms_of_halves(p);
    lemma_norms_of_halves(q);
    lemma_left_half_of_product(p, q);
    lemma_right_half_of_product(p, q);
    lemma_quat_norm_of_product(left_half(p), left_half(q));
    lemma_quat_norm_of_product(right_half(q), right_half(p));
    lemma_mul_binomials(
        quat_norm_sq(left_half(p)), quat_norm_sq(left_half(q)),
        1, norm_sq(p), -1, pseudo(p), 1, norm_sq(q), -1, pseudo(q));
    lemma_mul_binomials(
        quat_norm_sq(right_half(q)), quat_norm_sq(right_half(p)),
        1, norm_sq(q), 1, pseudo(q), 1, norm_sq(p), 1, pseudo(p));
}

/// Applying `p` and then `q` to a vector is applying the product `q p` once.
pub proof fn law_sandwich_of_product(q: RotorModel, p: RotorModel, v: VectorModel)
    ensures
        sandwich(q, sandwich(p, v)) == sandwich(product(q, p), v),
{
    let lq = left_half(q);
    let lp = left_half(p);
    let rq = right_half(q);
    let rp = right_half(p);
    let x = as_quaternion(v);
    lemma_left_half_of_product(q, p);
    lemma_right_half_of_product(q, p);
    // ((lq lp) x) (rp rq) = (lq (lp x)) (rp rq) = ((lq (lp x)) rp) rq = (lq ((lp x) rp)) rq
    lemma_quat_mul_assoc(lq, lp, x);
    lemma_quat_mul_assoc(quat_mul(lq, quat_mul(lp, x)), rp, rq);
    lemma_quat_mul_assoc(lq, quat_mul(lp, x), rp);
    assert(as_quaternion(sandwich(p, v)) == quat_mul(quat_mul(lp, x), rp));
}

/// The sandwich product is the geometric product `r v reverse(r)`.
///
/// Multiplied by `e1` from the left, the vector `v` and the vector
/// `r v reverse(r)` are elements of the even subalgebra, and
/// `e1 (r v reverse(r)) = (e1 r e1) (e1 v) reverse(r)` is a product of three of
/// its elements. That product has no part beside the four coefficients of an
/// embedded vector, and they are those of `sandwich(r, v)`.
pub proof fn law_sandwich_is_geometric(r: RotorModel, v: VectorModel)
    ensures
        product(product(conjugated_by_e1(r), embedded(v)), reverse(r)) == embedded(
            sandwich(r, v),
        ),
{
    let l = left_half(r);
    let t = right_half(r);
    let q = as_quaternion(v);
    let h = conjugated_by_e1(r);
    let e = embedded(v);
    let w = product(product(h, e), reverse(r));
    assert(left_half(h) == quat_conj(t) && right_half(h) == quat_conj(l));
    assert(left_half(e) == quat_conj(q) && right_half(e) == quat_conj(q));
    lemma_halves_of_reverse(r);
    lemma_left_half_of_product(h, e);
    lemma_left_half_of_product(product(h, e), reverse(r));
    lemma_right_half_of_product(h, e);
    lemma_right_half_of_product(product(h, e), reverse(r));
    // Both halves of the product are conj(t) conj(q) conj(l) = conj(l q t).
    lemma_quat_conj_of_product(l, q);
    lemma_quat_conj_of_product(quat_mul(l, q), t);
    lemma_quat_mul_assoc(quat_conj(t), quat_conj(q), quat_conj(l));
    let u = quat_conj(quat_mul(quat_mul(l, q), t));
    assert(left_half(w) == u);
    assert(right_half(w) == u);
    lemma_halves_determine_rotor(w, embedded(sandwich(r, v)));
}

/// A scalar rotor `k` scales every vector by `k²`; the scalar rotor one leaves
/// every vector as it is.
pub proof fn law_sandwich_of_scalar(k: int, v: VectorModel)
    ensures
        sandwich(scalar_rotor(k), v) == scale_vector(v, k * k),
        sandwich(scalar_rotor(1), v) == v,
{
    let x = as_quaternion(v);
    lemma_quat_mul_real(k, x);
    lemma_quat_mul_real(k, quat_mul(left_half(scalar_rotor(k)), x));
    lemma_mul_reassociate(v.x, k, k);
    lemma_mul_reassociate(v.y, k, k);
    lemma_mul_reassociate(v.z, k, k);
    lemma_mul_reassociate(v.w, k, k);
    lemma_quat_mul_real(1, x);
    lemma_quat_mul_real(1, quat_mul(left_half(scalar_rotor(1)), x));
}

/// `reverse(r) r` acts on every vector as the scale factor
/// `norm_sq(r)² - pseudo(r)²`.
pub proof fn law_sandwich_of_reverse_product(r: RotorModel, v: VectorModel)
    ensures
        sandwich(product(reverse(r), r), v) == scale_vector(
            v,
            (norm_sq(r) - pseudo(r)) * (norm_sq(r) + pseudo(r)),
        ),
{
    let n = norm_sq(r) - pseudo(r);
    let m = norm_sq(r) + pseudo(r);
    let x = as_quaternion(v);
    law_product_with_reverse(r);
    lemma_quat_mul_real(n, x);
    lemma_quat_mul_real(m, quat_mul(left_half(norm_rotor(r)), x));
    lemma_mul_reassociate(v.x, n, m);
    lemma_mul_reassociate(v.y, n, m);
    lemma_mul_reassociate(v.z, n, m);
    lemma_mul_reassociate(v.w, n, m);
}

/// Rotating by a rotor and then by its reverse returns the vector, scaled by
/// `norm_sq(r)² - pseudo(r)²`.
pub proof fn law_sandwich_then_reverse(r: RotorModel, v: VectorModel)
    ensures
        sandwich(reverse(r), sandwich(r, v)) == scale_vector(
            v,
            (norm_sq(r) - pseudo(r)) * (norm_sq(r) + pseudo(r)),
        ),
{
    law_sandwich_of_product(reverse(r), r, v);
    law_sandwich_of_reverse_product(r, v);
}

/// The product of two rotors `p` and `q` whose halves are known to multiply
/// to the halves of `r` is `r`.
proof fn lemma_product_from_halves(p: RotorModel, q: RotorModel, r: RotorModel)
    requires
        quat_mul(left_half(p), left_half(q)) == left_half(r),
        quat_mul(right_half(q), right_half(p)) == right_half(r),
    ensures
        product(p, q) == r,
{
    lemma_left_half_of_product(p, q);
    lemma_right_half_of_product(p, q);
    lemma_halves_determine_rotor(product(p, q), r);
}

/// Two rotors of one plane multiply to the rotor of that plane whose half
/// angle is the sum of theirs, by the addition theorems of cosine and sine.
pub proof fn law_product_in_plane(plane: Plane, c1: int, s1: int, c2: int, s2: int)
    ensures
        product(plane_model(plane, c1, s1), plane_model(plane, c2, s2)) == plane_model(
            plane,
            c1 * c2 - s1 * s2,
            s1 * c2 + c1 * s2,
        ),
{
    let p = plane_model(plane, c1, s1);
    let q = plane_model(plane, c2, s2);
    let r = plane_model(plane, c1 * c2 - s1 * s2, s1 * c2 + c1 * s2);
    lemma_quat_mul_planar(left_half(p), left_half(q));
    lemma_quat_mul_planar(right_half(q), right_half(p));
    let a = right_half(q);
    let b = right_half(p);
    lemma_mul_commutes(a.re, b.re);
    lemma_mul_commutes(a.i, b.i);
    lemma_mul_commutes(a.j, b.j);
    lemma_mul_commutes(a.k, b.k);
    lemma_mul_commutes(a.re, b.i);
    lemma_mul_commutes(a.re, b.j);
    lemma_mul_commutes(a.re, b.k);
    lemma_mul_commutes(a.i, b.re);
    lemma_mul_commutes(a.j, b.re);
    lemma_mul_commutes(a.k, b.re);
    lemma_mul_signs(s1, s2);
    lemma_mul_signs(s2, s1);
    lemma_mul_signs(c1, s2);
    lemma_mul_signs(s2, c1);
    lemma_mul_signs(s1, c2);
    lemma_mul_signs(c2, s1);
    assert(quat_mul(left_half(p), left_half(q)) == left_half(r));
    assert(quat_mul(right_half(q), right_half(p)) == right_half(r));
    lemma_product_from_halves(p, q, r);
}

/// The vector `v` turned in the given plane, from the first axis of the plane
/// toward the second, by the angle whose half has cosine `c` and sine `s`, and
/// scaled by `c² + s²`: with `a = c² - s²` and `b = 2 c s` the cosine and sine
/// of the whole angle, each times `c² + s²`.
pub open spec fn turned_in_plane(plane: Plane, c: int, s: int, v: VectorModel) -> VectorModel {
    let a = c * c - s * s;
    let b = 2 * (c * s);
    let n = c * c + s * s;
    match plane {
        Plane::XY => VectorModel {
            x: a * v.x - b * v.y,
            y: b * v.x + a * v.y,
            z: n * v.z,
            w: n * v.w,
        },
        Plane::XZ => VectorModel {
            x: a * v.x - b * v.z,
            y: n * v.y,
            z: b * v.x + a * v.z,
            w: n * v.w,
        },
        Plane::XW => VectorModel {
            x: a * v.x - b * v.w,
            y: n * v.y,
            z: n * v.z,
            w: b * v.x + a * v.w,
        },
        Plane::YZ => VectorModel {
            x: n * v.x,
            y: a * v.y - b * v.z,
            z: b * v.y + a * v.z,
            w: n * v.w,
        },
        Plane::YW => VectorModel {
            x: n * v.x,
            y: a * v.y - b * v.w,
            z: n * v.z,
            w: b * v.y + a * v.w,
        },
        Plane::ZW => VectorModel {
            x: n * v.x,
            y: n * v.y,
            z: a * v.z - b * v.w,
            w: b * v.z + a * v.w,
        },
    }
}

/// The action of two quaternions `l = c + s1·I` and `t = c + s2·I` on a
/// quaternion between them, where `s1` and `s2` are `s` or `-s`: in terms of
/// `a = c² - s²`, `b = 2 c s` and `n = c² + s²`.
proof fn lemma_between_half_angles(l: Quaternion, q: Quaternion, t: Quaternion, c: int, s: int)
    requires
        l.re == c && t.re == c,
        l.j == 0 && l.k == 0 && t.j == 0 && t.k == 0,
        (l.i == s || l.i == -s) && (t.i == s || t.i == -s),
    ensures
        ({
            let a = c * c - s * s;
            let b = 2 * (c * s);
            let n = c * c + s * s;
            let u = quat_mul(quat_mul(l, q), t);
            &&& l.i == s && t.i == s ==> u == (Quaternion {
                re: a * q.re - b * q.i,
                i: b * q.re + a * q.i,
                j: n * q.j,
                k: n * q.k,
            })
            &&& l.i == s && t.i == -s ==> u == (Quaternion {
                re: n * q.re,
                i: n * q.i,
                j: a * q.j - b * q.k,
                k: b * q.j + a * q.k,
            })
            &&& l.i == -s && t.i == s ==> u == (Quaternion {
                re: n * q.re,
                i: n * q.i,
                j: a * q.j + b * q.k,
                k: a * q.k - b * q.j,
            })
        }),
{
    let a = c * c - s * s;
    let b = 2 * (c * s);
    let n = c * c + s * s;
    let p = l.re * t.re - l.i * t.i;
    let o = l.re * t.i + l.i * t.re;
    let r = l.re * t.re + l.i * t.i;
    let d = l.re * t.i - l.i * t.re;
    lemma_between_planar(l, q, t);
    lemma_mul_signs(s, s);
    lemma_mul_signs(c, s);
    lemma_mul_signs(s, c);
    lemma_mul_commutes(s, c);
    if l.i == s && t.i == s {
        assert(p == a && o == b && r == n && d == 0);
        lemma_mul_by_zero(d, q.j);
        lemma_mul_by_zero(d, q.k);
    } else if l.i == s && t.i == -s {
        assert(p == n && o == 0 && r == a && d == -b);
        lemma_mul_by_zero(o, q.re);
        lemma_mul_by_zero(o, q.i);
        lemma_mul_signs(b, q.j);
        lemma_mul_signs(b, q.k);
    } else if l.i == -s && t.i == s {
        assert(p == n && o == 0 && r == a && d == b);
        lemma_mul_by_zero(o, q.re);
        lemma_mul_by_zero(o, q.i);
    }
}

/// A plane rotor turns every vector in its plane, from the first axis of the
/// plane toward the second, by the whole angle, and leaves the two other
/// coordinates to themselves; everything is scaled by the squared norm
/// `c² + s²` of the rotor.
pub proof fn law_sandwich_in_plane(plane: Plane, c: int, s: int, v: VectorModel)
    ensures
        sandwich(plane_model(plane, c, s), v) == turned_in_plane(plane, c, s, v),
{
    let l = left_half(plane_model(plane, c, s));
    let t = right_half(plane_model(plane, c, s));
    let q = as_quaternion(v);
    let u = quat_mul(quat_mul(l, q), t);
    match plane {
        // Both halves are complex numbers in `I`.
        Plane::XY | Plane::ZW => {
            lemma_between_half_angles(l, q, t, c, s);
        },
        // Both halves are complex numbers in `K`: one place before `I`.
        Plane::XW | Plane::YZ => {
            lemma_quat_cycle_of_product(l, q);
            lemma_quat_cycle_of_product(quat_mul(l, q), t);
            lemma_between_half_angles(quat_cycle(l), quat_cycle(q), quat_cycle(t), c, s);
            assert(quat_cycle(u).i == u.k && quat_cycle(u).j == u.i && quat_cycle(u).k == u.j);
        },
        // Both halves are complex numbers in `J`: two places before `I`.
        Plane::XZ | Plane::YW => {
            let l1 = quat_cycle(l);
            let q1 = quat_cycle(q);
            let t1 = quat_cycle(t);
            lemma_quat_cycle_of_product(l, q);
            lemma_quat_cycle_of_product(quat_mul(l, q), t);
            lemma_quat_cycle_of_product(l1, q1);
            lemma_quat_cycle_of_product(quat_mul(l1, q1), t1);
            lemma_between_half_angles(quat_cycle(l1), quat_cycle(q1), quat_cycle(t1), c, s);
            let u2 = quat_cycle(quat_cycle(u));
            assert(u2.i == u.j && u2.j == u.k && u2.k == u.i);
        },
    }
}

/// The sandwich product multiplies the squared length of a vector by
/// `norm_sq(r)² - pseudo(r)²`, here in its two factors: a rotor of zero
/// pseudoscalar part turns and scales, and changes no angle.
pub proof fn law_sandwich_length(r: RotorModel, v: VectorModel)
    ensures
        dot(sandwich(r, v), sandwich(r, v)) == ((norm_sq(r) - pseudo(r)) * dot(v, v)) * (norm_sq(
            r,
        ) + pseudo(r)),
{
    let l = left_half(r);
    let t = right_half(r);
    let q = as_quaternion(v);
    lemma_norms_of_halves(r);
    lemma_quat_norm_of_product(l, q);
    lemma_quat_norm_of_product(quat_mul(l, q), t);
    assert(quat_norm_sq(q) == dot(v, v));
    assert(quat_norm_sq(quat_mul(quat_mul(l, q), t)) == dot(sandwich(r, v), sandwich(r, v)));
}

} // verus!
