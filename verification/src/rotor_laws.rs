//! What the stored operations of `Rotor` satisfy exactly, rounding and
//! saturation included.
use crate::algebra::{
    left_half, lemma_norms_of_halves, norm_rotor, norm_sq, plane_model, product, pseudo, reverse,
    right_half, scalar_rotor, Plane, RotorModel,
};
use crate::arith::{lemma_mul_by_zero, lemma_mul_reassociate, lemma_mul_signs};
use crate::laws::{
    law_norm_of_product, law_product_in_plane, law_product_with_reverse, law_sandwich_of_scalar,
};
use crate::rotor::{
    composed, identity_rotor, is_moderate, is_unit, lemma_normalized_coefficient, magnitude_of,
    normalized_rotor, plane_rotor, rotated, saturated_rotor, stored_rotor, within_one, HalfAngle,
    Rotor,
};
use crate::scalar::{
    is_floor_sqrt, lemma_floor_sqrt_between, lemma_floor_sqrt_exists, lemma_floor_sqrt_unique,
    lemma_mul_bounds, lemma_quotient_bounded, lemma_quotient_of_multiple,
    lemma_quotient_of_opposite, lemma_square_increasing, lemma_square_nonnegative, quotient,
    stored, ONE,
};
use crate::vector::Vector4;
use vstd::prelude::*;

verus! {

/// Every coefficient of `r` multiplied by `k`.
pub open spec fn scale_rotor(r: RotorModel, k: int) -> RotorModel {
    RotorModel {
        s: r.s * k,
        e12: r.e12 * k,
        e13: r.e13 * k,
        e14: r.e14 * k,
        e23: r.e23 * k,
        e24: r.e24 * k,
        e34: r.e34 * k,
        e1234: r.e1234 * k,
    }
}

/// Rotating by the identity rotor returns the vector itself.
pub proof fn law_rotate_by_identity(v: Vector4)
    ensures
        rotated(identity_rotor()@, v@) == v@,
{
    let d = ONE as int * ONE as int;
    law_sandwich_of_scalar(ONE as int, v@);
    assert(identity_rotor()@ == scalar_rotor(ONE as int));
    lemma_quotient_of_multiple(v.x as int, d);
    lemma_quotient_of_multiple(v.y as int, d);
    lemma_quotient_of_multiple(v.z as int, d);
    lemma_quotient_of_multiple(v.w as int, d);
}

/// The composition of any rotor with its reverse, in either order, is the
/// squared magnitude as scalar and the stored pseudoscalar part of
/// `reverse(r) r`, with nothing between them.
pub proof fn law_compose_with_reverse_of_any(r: Rotor)
    ensures
        composed(reverse(r@), r@) == stored_rotor(norm_rotor(r@)),
        composed(r@, reverse(r@)) == stored_rotor(norm_rotor(r@)),
        stored_rotor(norm_rotor(r@)) == (RotorModel {
            s: stored(norm_sq(r@)),
            e1234: stored(pseudo(r@)),
            ..scalar_rotor(0)
        }),
{
    law_product_with_reverse(r@);
}

/// No coefficient of a unit rotor exceeds one in magnitude.
pub proof fn lemma_unit_coefficients(r: RotorModel)
    requires
        is_unit(r),
    ensures
        within_one(r),
{
    lemma_square_at_most(r.s, norm_sq(r) - r.s * r.s);
    lemma_square_at_most(r.e12, norm_sq(r) - r.e12 * r.e12);
    lemma_square_at_most(r.e13, norm_sq(r) - r.e13 * r.e13);
    lemma_square_at_most(r.e14, norm_sq(r) - r.e14 * r.e14);
    lemma_square_at_most(r.e23, norm_sq(r) - r.e23 * r.e23);
    lemma_square_at_most(r.e24, norm_sq(r) - r.e24 * r.e24);
    lemma_square_at_most(r.e34, norm_sq(r) - r.e34 * r.e34);
    lemma_square_at_most(r.e1234, norm_sq(r) - r.e1234 * r.e1234);
    lemma_square_nonnegative(r.s);
    lemma_square_nonnegative(r.e12);
    lemma_square_nonnegative(r.e13);
    lemma_square_nonnegative(r.e14);
    lemma_square_nonnegative(r.e23);
    lemma_square_nonnegative(r.e24);
    lemma_square_nonnegative(r.e34);
    lemma_square_nonnegative(r.e1234);
}

/// An integer whose square is at most `ONE²` is at most `ONE` in magnitude.
proof fn lemma_square_at_most(c: int, rest: int)
    ensures
        rest >= 0 && c * c + rest == ONE * ONE ==> -ONE <= c <= ONE,
{
    if rest >= 0 && c * c + rest == ONE * ONE {
        if c > ONE {
            lemma_square_increasing(ONE as int, c);
        }
        if -c > ONE {
            lemma_square_increasing(ONE as int, -c);
            lemma_mul_signs(c, c);
        }
    }
}

/// For a unit rotor, reversion is exact, the reverse composed with the rotor
/// is the identity rotor, in either order, and so rotating by that composition
/// returns the vector itself.
pub proof fn law_compose_with_reverse(r: Rotor, v: Vector4)
    requires
        is_unit(r@),
    ensures
        saturated_rotor(reverse(r@)) == reverse(r@),
        composed(reverse(r@), r@) == identity_rotor()@,
        composed(r@, reverse(r@)) == identity_rotor()@,
        rotated(composed(reverse(r@), r@), v@) == v@,
{
    lemma_unit_coefficients(r@);
    law_product_with_reverse(r@);
    assert(norm_rotor(r@) == scalar_rotor(ONE as int * ONE as int));
    lemma_quotient_of_multiple(ONE as int, ONE as int);
    law_rotate_by_identity(v);
}

/// The rotor of a plane is unit where cosine and sine are those of an angle.
pub proof fn law_plane_rotor_is_unit(plane: Plane, half: HalfAngle)
    requires
        half.is_unit(),
    ensures
        is_unit(plane_rotor(plane, half)@),
{
    let c = half.cos as int;
    let s = half.sin as int;
    lemma_square_nonnegative(c);
    lemma_square_nonnegative(s);
    lemma_square_at_most(c, s * s);
    lemma_square_at_most(s, c * c);
    lemma_plane_rotor_view(plane, half);
    // The reverse is the rotor of the opposite angle, and the two multiply to
    // the rotor of the angle zero, with the squared norm as its scalar.
    let r = plane_model(plane, c, s);
    assert(reverse(r) == plane_model(plane, c, -s));
    law_product_in_plane(plane, c, -s, c, s);
    law_product_with_reverse(r);
    lemma_mul_signs(s, s);
    lemma_mul_signs(s, c);
    assert(c * s == s * c) by (nonlinear_arith);
}

/// The sum of two half angles is valid where cosine and sine of both are those
/// of angles.
pub proof fn law_sum_of_half_angles_is_valid(a: HalfAngle, b: HalfAngle)
    requires
        a.is_unit(),
        b.is_unit(),
    ensures
        a.spec_plus(b).is_valid(),
{
    let c = a.cos * b.cos - a.sin * b.sin;
    let s = a.sin * b.cos + a.cos * b.sin;
    // The two rotors of one plane multiply to a rotor of squared norm ONE⁴.
    let p = plane_model(Plane::XY, a.cos as int, a.sin as int);
    let q = plane_model(Plane::XY, b.cos as int, b.sin as int);
    law_plane_rotor_is_unit(Plane::XY, a);
    law_plane_rotor_is_unit(Plane::XY, b);
    lemma_unit_coefficients(p);
    lemma_unit_coefficients(q);
    lemma_plane_rotor_view(Plane::XY, a);
    lemma_plane_rotor_view(Plane::XY, b);
    law_product_in_plane(Plane::XY, a.cos as int, a.sin as int, b.cos as int, b.sin as int);
    law_norm_of_product(p, q);
    lemma_mul_by_zero(pseudo(p), pseudo(q));
    law_product_with_reverse(plane_model(Plane::XY, c, s));
    let r = plane_model(Plane::XY, c, s);
    assert(reverse(r) == plane_model(Plane::XY, c, -s));
    law_product_in_plane(Plane::XY, c, -s, c, s);
    lemma_mul_signs(s, s);
    assert(norm_sq(r) == c * c + s * s);
    assert(norm_sq(p) * norm_sq(q) == 0x1_0000_0000_0000_0000) by (nonlinear_arith)
        requires
            norm_sq(p) == 0x1_0000_0000 && norm_sq(q) == 0x1_0000_0000,
    ;
    lemma_square_nonnegative(c);
    lemma_square_nonnegative(s);
    if c > 0x1_0000_0000 {
        lemma_square_increasing(0x1_0000_0000, c);
    }
    if -c > 0x1_0000_0000 {
        lemma_square_increasing(0x1_0000_0000, -c);
        lemma_mul_signs(c, c);
    }
    if s > 0x1_0000_0000 {
        lemma_square_increasing(0x1_0000_0000, s);
    }
    if -s > 0x1_0000_0000 {
        lemma_square_increasing(0x1_0000_0000, -s);
    }
    lemma_quotient_within(c);
    lemma_quotient_within(s);
}

/// What is at most `ONE²` in magnitude is at most `ONE` when it is stored.
proof fn lemma_quotient_within(x: int)
    requires
        -0x1_0000_0000 <= x <= 0x1_0000_0000,
    ensures
        -ONE <= stored(x) <= ONE,
{
}

/// The view of a plane rotor whose half angle is valid.
pub proof fn lemma_plane_rotor_view(plane: Plane, half: HalfAngle)
    requires
        half.is_valid(),
    ensures
        plane_rotor(plane, half)@ == plane_model(plane, half.cos as int, half.sin as int),
{
}

/// Composing two rotations of one plane gives the rotation of that plane by
/// the sum of the angles, coefficient for coefficient.
pub proof fn law_compose_in_plane(plane: Plane, a: HalfAngle, b: HalfAngle)
    requires
        a.is_valid(),
        b.is_valid(),
    ensures
        composed(plane_rotor(plane, a)@, plane_rotor(plane, b)@) == plane_rotor(
            plane,
            a.spec_plus(b),
        )@,
{
    let c = a.cos * b.cos - a.sin * b.sin;
    let s = a.sin * b.cos + a.cos * b.sin;
    lemma_plane_rotor_view(plane, a);
    lemma_plane_rotor_view(plane, b);
    law_product_in_plane(plane, a.cos as int, a.sin as int, b.cos as int, b.sin as int);
    lemma_mul_bounds(a.cos as int, b.cos as int, ONE as int, ONE as int);
    lemma_mul_bounds(a.sin as int, b.sin as int, ONE as int, ONE as int);
    lemma_mul_bounds(a.sin as int, b.cos as int, ONE as int, ONE as int);
    lemma_mul_bounds(a.cos as int, b.sin as int, ONE as int, ONE as int);
    lemma_quotient_bounded(c, ONE as int, 2 * (ONE as int * ONE as int));
    lemma_quotient_bounded(s, ONE as int, 2 * (ONE as int * ONE as int));
    lemma_quotient_of_opposite(s, ONE as int);
    assert(stored(c) == quotient(c, ONE as int));
    assert(stored(s) == quotient(s, ONE as int));
    assert(stored(-s) == -stored(s));
    assert(stored(0) == 0);
}

/// The squared norm of a scaled rotor.
proof fn lemma_norm_of_scaled(u: RotorModel, k: int)
    ensures
        norm_sq(scale_rotor(u, k)) == norm_sq(u) * (k * k),
{
    lemma_square_of_scaled(u.s, k);
    lemma_square_of_scaled(u.e12, k);
    lemma_square_of_scaled(u.e13, k);
    lemma_square_of_scaled(u.e14, k);
    lemma_square_of_scaled(u.e23, k);
    lemma_square_of_scaled(u.e24, k);
    lemma_square_of_scaled(u.e34, k);
    lemma_square_of_scaled(u.e1234, k);
    let m = k * k;
    assert((u.s * u.s + u.e12 * u.e12 + u.e13 * u.e13 + u.e14 * u.e14 + u.e23 * u.e23 + u.e24
        * u.e24 + u.e34 * u.e34 + u.e1234 * u.e1234) * m == (u.s * u.s) * m + (u.e12 * u.e12) * m
        + (u.e13 * u.e13) * m + (u.e14 * u.e14) * m + (u.e23 * u.e23) * m + (u.e24 * u.e24) * m
        + (u.e34 * u.e34) * m + (u.e1234 * u.e1234) * m) by (nonlinear_arith);
}

/// The square of a scaled integer.
proof fn lemma_square_of_scaled(c: int, k: int)
    by (nonlinear_arith)
    ensures
        (c * k) * (c * k) == (c * c) * (k * k),
{
}

/// A unit rotor scaled by `k` has magnitude `k · ONE` and is normalized to the
/// unit rotor.
proof fn lemma_normalized_of_scaled(u: RotorModel, k: int)
    requires
        is_unit(u),
        k >= 1,
    ensures
        magnitude_of(scale_rotor(u, k)) == k * ONE,
        normalized_rotor(scale_rotor(u, k)) == u,
{
    let r = scale_rotor(u, k);
    let m = k * ONE;
    lemma_norm_of_scaled(u, k);
    assert(m * m == (ONE * ONE) * (k * k) && m * m < (m + 1) * (m + 1) && m >= 1)
        by (nonlinear_arith)
        requires
            m == k * ONE,
            k >= 1,
    ;
    assert(is_floor_sqrt(norm_sq(r), m));
    lemma_floor_sqrt_unique(norm_sq(r), m);
    lemma_scaled_coefficient(u.s, k);
    lemma_scaled_coefficient(u.e12, k);
    lemma_scaled_coefficient(u.e13, k);
    lemma_scaled_coefficient(u.e14, k);
    lemma_scaled_coefficient(u.e23, k);
    lemma_scaled_coefficient(u.e24, k);
    lemma_scaled_coefficient(u.e34, k);
    lemma_scaled_coefficient(u.e1234, k);
}

/// Normalization undoes scaling: a unit rotor scaled by any positive factor
/// is normalized to that unit rotor. A unit rotor has magnitude exactly one
/// and is normalized to itself.
pub proof fn law_normalized_of_scaled_unit(u: Rotor, k: int)
    requires
        is_unit(u@),
        k >= 1,
    ensures
        normalized_rotor(scale_rotor(u@, k)) == u@,
        normalized_rotor(u@) == u@,
        magnitude_of(u@) == ONE,
{
    lemma_normalized_of_scaled(u@, k);
    lemma_normalized_of_scaled(u@, 1);
    assert(scale_rotor(u@, 1) == u@);
}

/// A coefficient scaled by `k`, times `ONE`, divided by `k · ONE`, is the
/// coefficient.
proof fn lemma_scaled_coefficient(c: int, k: int)
    requires
        k >= 1,
    ensures
        quotient((c * k) * ONE, k * ONE) == c,
{
    lemma_mul_reassociate(c, k, ONE as int);
    assert(k * ONE > 0) by (nonlinear_arith)
        requires
            k >= 1,
    ;
    lemma_quotient_of_multiple(c, k * ONE);
}

/// No coefficient of a normalized rotor exceeds one in magnitude.
pub proof fn law_normalized_within_one(r: Rotor)
    ensures
        within_one(normalized_rotor(r@)),
{
    let n = norm_sq(r@);
    let m = magnitude_of(r@);
    lemma_square_nonnegative(r.s as int);
    lemma_square_nonnegative(r.e12 as int);
    lemma_square_nonnegative(r.e13 as int);
    lemma_square_nonnegative(r.e14 as int);
    lemma_square_nonnegative(r.e23 as int);
    lemma_square_nonnegative(r.e24 as int);
    lemma_square_nonnegative(r.e34 as int);
    lemma_square_nonnegative(r.e1234 as int);
    lemma_floor_sqrt_exists(n);
    if m == 0 {
        // The squared norm is below one, so every coefficient is zero.
        assert((m + 1) * (m + 1) == 1) by (nonlinear_arith)
            requires
                m == 0,
        ;
        lemma_zero_of_square(r.s as int);
        lemma_zero_of_square(r.e12 as int);
        lemma_zero_of_square(r.e13 as int);
        lemma_zero_of_square(r.e14 as int);
        lemma_zero_of_square(r.e23 as int);
        lemma_zero_of_square(r.e24 as int);
        lemma_zero_of_square(r.e34 as int);
        lemma_zero_of_square(r.e1234 as int);
    } else {
        lemma_normalized_coefficient(r.s as int, n, m);
        lemma_normalized_coefficient(r.e12 as int, n, m);
        lemma_normalized_coefficient(r.e13 as int, n, m);
        lemma_normalized_coefficient(r.e14 as int, n, m);
        lemma_normalized_coefficient(r.e23 as int, n, m);
        lemma_normalized_coefficient(r.e24 as int, n, m);
        lemma_normalized_coefficient(r.e34 as int, n, m);
        lemma_normalized_coefficient(r.e1234 as int, n, m);
    }
}

/// An integer whose square is zero is zero.
proof fn lemma_zero_of_square(c: int)
    by (nonlinear_arith)
    ensures
        c * c <= 0 ==> c == 0,
{
}

/// A unit rotor is of moderate size.
pub proof fn law_unit_is_moderate(r: Rotor)
    requires
        is_unit(r@),
    ensures
        is_moderate(r@),
{
}

/// A normalized coefficient, squared and multiplied by the squared magnitude,
/// is at most the square of the coefficient times `ONE²`.
proof fn lemma_square_of_normalized(c: int, m: int)
    requires
        m > 0,
    ensures
        (quotient(c * ONE, m) * quotient(c * ONE, m)) * (m * m) <= (c * c) * 0x1_0000_0000,
{
    let a = if c >= 0 {
        c * ONE
    } else {
        -(c * ONE)
    };
    let t = a / m;
    lemma_mul_signs(t, t);
    assert(0 <= t * m <= a) by (nonlinear_arith)
        requires
            a >= 0,
            m > 0,
            t == a / m,
    ;
    assert((t * t) * (m * m) <= a * a) by (nonlinear_arith)
        requires
            0 <= t * m <= a,
    ;
    assert(a * a == (c * c) * 0x1_0000_0000) by (nonlinear_arith)
        requires
            a == c * 65536 || a == -(c * 65536),
    ;
}

/// What `normalized` returns is of moderate size, where the magnitude of the
/// rotor is at least three units of the last place.
pub proof fn law_normalized_is_moderate(r: Rotor)
    requires
        magnitude_of(r@) >= 3,
    ensures
        is_moderate(normalized_rotor(r@)),
{
    let n = norm_sq(r@);
    let m = magnitude_of(r@);
    let u = normalized_rotor(r@);
    let k = m * m;
    lemma_square_nonnegative(r.s as int);
    lemma_square_nonnegative(r.e12 as int);
    lemma_square_nonnegative(r.e13 as int);
    lemma_square_nonnegative(r.e14 as int);
    lemma_square_nonnegative(r.e23 as int);
    lemma_square_nonnegative(r.e24 as int);
    lemma_square_nonnegative(r.e34 as int);
    lemma_square_nonnegative(r.e1234 as int);
    lemma_floor_sqrt_exists(n);
    lemma_square_of_normalized(r.s as int, m);
    lemma_square_of_normalized(r.e12 as int, m);
    lemma_square_of_normalized(r.e13 as int, m);
    lemma_square_of_normalized(r.e14 as int, m);
    lemma_square_of_normalized(r.e23 as int, m);
    lemma_square_of_normalized(r.e24 as int, m);
    lemma_square_of_normalized(r.e34 as int, m);
    lemma_square_of_normalized(r.e1234 as int, m);
    assert((u.s * u.s + u.e12 * u.e12 + u.e13 * u.e13 + u.e14 * u.e14 + u.e23 * u.e23 + u.e24
        * u.e24 + u.e34 * u.e34 + u.e1234 * u.e1234) * k == (u.s * u.s) * k + (u.e12 * u.e12) * k
        + (u.e13 * u.e13) * k + (u.e14 * u.e14) * k + (u.e23 * u.e23) * k + (u.e24 * u.e24) * k
        + (u.e34 * u.e34) * k + (u.e1234 * u.e1234) * k) by (nonlinear_arith);
    assert(norm_sq(u) * k <= n * 0x1_0000_0000);
    // The squared norm is below (m + 1)², which is at most 2 m².
    assert(norm_sq(u) < 0x2_0000_0000) by (nonlinear_arith)
        requires
            norm_sq(u) * k <= n * 0x1_0000_0000,
            n < (m + 1) * (m + 1),
            k == m * m,
            m >= 3,
    ;
    // Neither half has a negative squared norm.
    lemma_norms_of_halves(u);
    lemma_square_nonnegative(left_half(u).re);
    lemma_square_nonnegative(left_half(u).i);
    lemma_square_nonnegative(left_half(u).j);
    lemma_square_nonnegative(left_half(u).k);
    lemma_square_nonnegative(right_half(u).re);
    lemma_square_nonnegative(right_half(u).i);
    lemma_square_nonnegative(right_half(u).j);
    lemma_square_nonnegative(right_half(u).k);
}

/// What rounding toward zero does to the square of a coefficient `p` of
/// magnitude at most `ONE²`: the square of the stored coefficient, times
/// `ONE²`, is at most `p²` and falls short of it by less than `2 ONE³`.
proof fn lemma_square_of_stored(p: int)
    requires
        p * p <= 0x1_0000_0000_0000_0000,
    ensures
        stored(p) == quotient(p, ONE as int),
        p * p - 0x2_0000_0000_0000 <= (stored(p) * stored(p)) * 0x1_0000_0000 <= p * p,
{
    let a = if p >= 0 {
        p
    } else {
        -p
    };
    let c = a / 65536;
    lemma_mul_signs(p, p);
    assert(a * a == p * p);
    if a > 0x1_0000_0000 {
        lemma_square_increasing(0x1_0000_0000, a);
    }
    assert((c * c) * 0x1_0000_0000 <= a * a && a * a - 0x2_0000_0000_0000 <= (c * c)
        * 0x1_0000_0000) by (nonlinear_arith)
        requires
            0 <= c * 65536 <= a < c * 65536 + 65536,
            a <= 0x1_0000_0000,
    ;
    lemma_mul_signs(c, c);
    assert(stored(p) * stored(p) == c * c);
}

/// The composition of two unit rotors has a magnitude of at most one and at
/// least one less nine units of the last place: it is unit up to rounding.
pub proof fn law_compose_keeps_unit_magnitude(a: Rotor, b: Rotor)
    requires
        is_unit(a@),
        is_unit(b@),
    ensures
        ONE - 9 <= magnitude_of(composed(a@, b@)) <= ONE,
{
    let p = product(a@, b@);
    let c = composed(a@, b@);
    law_norm_of_product(a@, b@);
    lemma_mul_by_zero(pseudo(a@), pseudo(b@));
    assert(norm_sq(p) == 0x1_0000_0000_0000_0000) by {
        assert(norm_sq(a@) == 0x1_0000_0000 && norm_sq(b@) == 0x1_0000_0000);
        assert(norm_sq(a@) * norm_sq(b@) == 0x1_0000_0000_0000_0000) by (nonlinear_arith)
            requires
                norm_sq(a@) == 0x1_0000_0000 && norm_sq(b@) == 0x1_0000_0000,
        ;
    }
    lemma_square_nonnegative(p.s);
    lemma_square_nonnegative(p.e12);
    lemma_square_nonnegative(p.e13);
    lemma_square_nonnegative(p.e14);
    lemma_square_nonnegative(p.e23);
    lemma_square_nonnegative(p.e24);
    lemma_square_nonnegative(p.e34);
    lemma_square_nonnegative(p.e1234);
    lemma_square_of_stored(p.s);
    lemma_square_of_stored(p.e12);
    lemma_square_of_stored(p.e13);
    lemma_square_of_stored(p.e14);
    lemma_square_of_stored(p.e23);
    lemma_square_of_stored(p.e24);
    lemma_square_of_stored(p.e34);
    lemma_square_of_stored(p.e1234);
    let n = norm_sq(c);
    assert(0x1_0000_0000 - 16 * 65536 <= n <= 0x1_0000_0000);
    lemma_floor_sqrt_between(n, ONE - 9, ONE as int);
}

} // verus!
