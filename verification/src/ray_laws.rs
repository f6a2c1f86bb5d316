//! What the intersection tests mean in exact arithmetic: where a ray is said
//! to miss a hypersphere, no point of its line lies on the sphere, and where it
//! is said to hit, the hit lies where the ray enters the sphere.
use crate::algebra::{dot, scale_vector, vector_difference, VectorModel};
use crate::arith::{
    lemma_mul_binomials, lemma_mul_by_zero, lemma_mul_distributes_over_four,
    lemma_mul_interchange,
};
use crate::objects::{HyperPlane, HyperSphere};
use crate::ray::{discriminant, to_center, Ray};
use crate::scalar::{floor_sqrt, lemma_floor_sqrt_exists, lemma_square_nonnegative};
use vstd::prelude::*;

verus! {

/// The vector from `target` to the point of the line of the ray with the
/// parameter `n / d`, multiplied by `d`; `toward` is the vector from the
/// origin of the ray to `target`.
pub open spec fn gap(ray: Ray, toward: VectorModel, n: int, d: int) -> VectorModel {
    vector_difference(scale_vector(ray.direction@, n), scale_vector(toward, d))
}

/// The square of `n x - d y`.
proof fn lemma_square_of_gap(x: int, y: int, n: int, d: int)
    ensures
        (x * n - y * d) * (x * n - y * d) == (x * x) * (n * n) - 2 * ((x * y) * (n * d)) + (y
            * y) * (d * d),
{
    lemma_mul_binomials(x * n - y * d, x * n - y * d, 1, x * n, -1, y * d, 1, x * n, -1, y * d);
    lemma_mul_interchange(x, n, x, n);
    lemma_mul_interchange(x, n, y, d);
    lemma_mul_interchange(y, d, x, n);
    lemma_mul_interchange(y, d, y, d);
    assert((y * x) * (d * n) == (x * y) * (n * d)) by (nonlinear_arith);
}

/// The squared length of the gap is the quadratic form of the sphere equation:
/// `a n² - 2 h n d + (oc·oc) d²`.
pub proof fn lemma_gap_length(ray: Ray, toward: VectorModel, n: int, d: int)
    ensures
        dot(gap(ray, toward, n, d), gap(ray, toward, n, d)) == dot(
            ray.direction@,
            ray.direction@,
        ) * (n * n) - 2 * (dot(ray.direction@, toward) * (n * d)) + dot(toward, toward) * (d * d),
{
    let v = ray.direction@;
    let o = toward;
    lemma_square_of_gap(v.x, o.x, n, d);
    lemma_square_of_gap(v.y, o.y, n, d);
    lemma_square_of_gap(v.z, o.z, n, d);
    lemma_square_of_gap(v.w, o.w, n, d);
    lemma_mul_distributes_over_four(v.x * v.x, v.y * v.y, v.z * v.z, v.w * v.w, n * n);
    lemma_mul_distributes_over_four(v.x * o.x, v.y * o.y, v.z * o.z, v.w * o.w, n * d);
    lemma_mul_distributes_over_four(o.x * o.x, o.y * o.y, o.z * o.z, o.w * o.w, d * d);
}

/// Completing the square: `a (a n² - 2 h n d + c d²)` is
/// `(a n - h d)² - (h² - a c) d²`.
proof fn lemma_complete_the_square(a: int, h: int, c: int, n: int, d: int)
    ensures
        a * (a * (n * n) - 2 * (h * (n * d)) + c * (d * d)) == (a * n - h * d) * (a * n - h * d)
            - (h * h - a * c) * (d * d),
{
    lemma_square_of_gap(a, h, n, d);
    assert(a * (a * (n * n) - 2 * (h * (n * d)) + c * (d * d)) == a * (a * (n * n)) - 2 * (a
        * (h * (n * d))) + a * (c * (d * d))) by (nonlinear_arith);
    assert(a * (a * (n * n)) == (a * a) * (n * n) && a * (h * (n * d)) == (a * h) * (n * d) && a
        * (c * (d * d)) == (a * c) * (d * d)) by (nonlinear_arith);
    assert((h * h - a * c) * (d * d) == (h * h) * (d * d) - (a * c) * (d * d))
        by (nonlinear_arith);
}

/// Where the discriminant is negative, the whole line of the ray lies outside
/// the sphere: its point with any parameter `n / d` is farther from the center
/// than the radius.
pub proof fn law_sphere_missed(sphere: HyperSphere, ray: Ray, n: int, d: int)
    requires
        discriminant(sphere, ray) < 0,
        d != 0,
    ensures
        dot(gap(ray, to_center(sphere, ray), n, d), gap(ray, to_center(sphere, ray), n, d)) > (
        sphere.radius * sphere.radius) * (d * d),
{
    let oc = to_center(sphere, ray);
    let a = dot(ray.direction@, ray.direction@);
    let h = dot(ray.direction@, oc);
    let r2 = sphere.radius * sphere.radius;
    let c = dot(oc, oc) - r2;
    let q = a * (n * n) - 2 * (h * (n * d)) + c * (d * d);
    lemma_gap_length(ray, oc, n, d);
    lemma_complete_the_square(a, h, c, n, d);
    lemma_square_nonnegative(a * n - h * d);
    lemma_square_nonnegative(h);
    lemma_square_nonnegative(ray.direction@.x);
    lemma_square_nonnegative(ray.direction@.y);
    lemma_square_nonnegative(ray.direction@.z);
    lemma_square_nonnegative(ray.direction@.w);
    if a == 0 {
        lemma_mul_by_zero(a, c);
    }
    assert(a > 0);
    assert((h * h - a * c) * (d * d) < 0) by (nonlinear_arith)
        requires
            h * h - a * c < 0,
            d != 0,
    ;
    assert(q > 0) by (nonlinear_arith)
        requires
            a > 0,
            a * q > 0,
    ;
    assert((dot(oc, oc) - r2) * (d * d) == dot(oc, oc) * (d * d) - r2 * (d * d))
        by (nonlinear_arith);
}

/// Where the discriminant is not negative and the ray has a direction, the
/// ray enters the sphere between the parameters `(h - s - 1) / a` and
/// `(h - s) / a`, where `s` is the rounded-down square root of the
/// discriminant: the point of the line with the first parameter lies outside
/// the sphere, the point with the second inside it or on it. The distance of a
/// hit is the second parameter as a scalar, rounded toward zero.
pub proof fn law_sphere_entered(sphere: HyperSphere, ray: Ray)
    requires
        discriminant(sphere, ray) >= 0,
        dot(ray.direction@, ray.direction@) > 0,
    ensures
        ({
            let oc = to_center(sphere, ray);
            let a = dot(ray.direction@, ray.direction@);
            let h = dot(ray.direction@, oc);
            let s = floor_sqrt(discriminant(sphere, ray));
            let r2 = sphere.radius * sphere.radius;
            &&& dot(gap(ray, oc, h - s, a), gap(ray, oc, h - s, a)) <= r2 * (a * a)
            &&& dot(gap(ray, oc, h - s - 1, a), gap(ray, oc, h - s - 1, a)) > r2 * (a * a)
        }),
{
    let oc = to_center(sphere, ray);
    let a = dot(ray.direction@, ray.direction@);
    let h = dot(ray.direction@, oc);
    let r2 = sphere.radius * sphere.radius;
    let c = dot(oc, oc) - r2;
    let disc = discriminant(sphere, ray);
    let s = floor_sqrt(disc);
    lemma_floor_sqrt_exists(disc);
    assert((dot(oc, oc) - r2) * (a * a) == dot(oc, oc) * (a * a) - r2 * (a * a))
        by (nonlinear_arith);

    let n1 = h - s;
    let q1 = a * (n1 * n1) - 2 * (h * (n1 * a)) + c * (a * a);
    lemma_gap_length(ray, oc, n1, a);
    lemma_complete_the_square(a, h, c, n1, a);
    assert((a * n1 - h * a) * (a * n1 - h * a) == (s * s) * (a * a)) by (nonlinear_arith)
        requires
            n1 == h - s,
    ;
    assert((s * s) * (a * a) - disc * (a * a) <= 0) by (nonlinear_arith)
        requires
            s * s <= disc,
    ;
    assert(q1 <= 0) by (nonlinear_arith)
        requires
            a > 0,
            a * q1 <= 0,
    ;

    let n0 = h - s - 1;
    let q0 = a * (n0 * n0) - 2 * (h * (n0 * a)) + c * (a * a);
    lemma_gap_length(ray, oc, n0, a);
    lemma_complete_the_square(a, h, c, n0, a);
    assert((a * n0 - h * a) * (a * n0 - h * a) == ((s + 1) * (s + 1)) * (a * a))
        by (nonlinear_arith)
        requires
            n0 == h - s - 1,
    ;
    assert(((s + 1) * (s + 1)) * (a * a) - disc * (a * a) > 0) by (nonlinear_arith)
        requires
            disc < (s + 1) * (s + 1),
            a > 0,
    ;
    assert(q0 > 0) by (nonlinear_arith)
        requires
            a > 0,
            a * q0 > 0,
    ;
}

/// The point of the line of the ray with the parameter
/// `(p - o)·n / n·d` lies in the hyperplane: the vector from the point of the
/// plane to it is orthogonal to the normal. The distance of a hit is that
/// parameter as a scalar, rounded toward zero.
pub proof fn law_plane_met(plane: HyperPlane, ray: Ray)
    ensures
        ({
            let toward = vector_difference(plane.position@, ray.origin@);
            let numerator = dot(toward, plane.normal@);
            let denominator = dot(plane.normal@, ray.direction@);
            dot(gap(ray, toward, numerator, denominator), plane.normal@) == 0
        }),
{
    let toward = vector_difference(plane.position@, ray.origin@);
    let n = plane.normal@;
    let v = ray.direction@;
    let numerator = dot(toward, n);
    let denominator = dot(n, v);
    lemma_gap_component(v.x, toward.x, n.x, numerator, denominator);
    lemma_gap_component(v.y, toward.y, n.y, numerator, denominator);
    lemma_gap_component(v.z, toward.z, n.z, numerator, denominator);
    lemma_gap_component(v.w, toward.w, n.w, numerator, denominator);
    lemma_mul_distributes_over_four(n.x * v.x, n.y * v.y, n.z * v.z, n.w * v.w, numerator);
    lemma_mul_distributes_over_four(
        toward.x * n.x,
        toward.y * n.y,
        toward.z * n.z,
        toward.w * n.w,
        denominator,
    );
    assert(denominator * numerator == numerator * denominator) by (nonlinear_arith);
}

/// One coordinate of a gap, multiplied by a coordinate of the normal.
proof fn lemma_gap_component(v: int, o: int, k: int, n: int, d: int)
    by (nonlinear_arith)
    ensures
        (v * n - o * d) * k == (k * v) * n - (o * k) * d,
{
}

} // verus!
