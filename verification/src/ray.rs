//! Rays, hits, and the intersection of a ray with the objects of a scene.
use crate::algebra::{dot, scale_vector, vector_difference, VectorModel};
use crate::arith::lemma_mul_signs;
use crate::objects::{HyperPlane, HyperSphere, Object};
use crate::scalar::{
    bounded_mul, divide, floor_sqrt, isqrt, lemma_square_nonnegative, narrow, negate, quotient,
    saturate, Scalar, ONE,
};
use crate::vector::{advanced, saturated_vector, Vector4};
use vstd::prelude::*;

verus! {

/// The largest magnitude of a coordinate that the intersection tests accept:
/// 8192 units. Within it, every intermediate value fits in 128 bits.
pub const WORLD_LIMIT: Scalar = 0x2000_0000;

/// A half-line: the points `origin + direction · t` for `t > 0`.
#[derive(Clone, Copy, Debug, PartialEq, Eq, Structural)]
pub struct Ray {
    pub origin: Vector4,
    pub direction: Vector4,
}

/// Where a ray meets a surface.
#[derive(Clone, Copy, Debug, PartialEq, Eq, Structural)]
pub struct Hit {
    pub distance: Scalar,
    pub position: Vector4,
    pub normal: Vector4,
    pub material: u32,
}

/// A hit with integer fields.
pub struct HitModel {
    pub distance: int,
    pub position: VectorModel,
    pub normal: VectorModel,
    pub material: u32,
}

impl View for Hit {
    type V = HitModel;

    open spec fn view(&self) -> HitModel {
        HitModel {
            distance: self.distance as int,
            position: self.position@,
            normal: self.normal@,
            material: self.material,
        }
    }
}

/// The view of a hit that may be absent.
pub open spec fn hit_view(hit: Option<Hit>) -> Option<HitModel> {
    match hit {
        Some(h) => Some(h@),
        None => None,
    }
}

/// The scalar is within the world limit.
pub open spec fn scalar_in_world(x: Scalar) -> bool {
    -WORLD_LIMIT <= x <= WORLD_LIMIT
}

/// Every coordinate of the vector is within the world limit.
pub open spec fn in_world(v: Vector4) -> bool {
    &&& scalar_in_world(v.x)
    &&& scalar_in_world(v.y)
    &&& scalar_in_world(v.z)
    &&& scalar_in_world(v.w)
}

/// The point of the ray at the given distance from its origin.
pub open spec fn point_along(ray: Ray, distance: int) -> VectorModel {
    advanced(ray.origin@, ray.direction@, distance)
}

/// The vector from `center` to `position`, divided by `radius`.
pub open spec fn sphere_normal(position: VectorModel, center: VectorModel, radius: int)
    -> VectorModel {
    VectorModel {
        x: saturate(quotient((position.x - center.x) * ONE, radius)),
        y: saturate(quotient((position.y - center.y) * ONE, radius)),
        z: saturate(quotient((position.z - center.z) * ONE, radius)),
        w: saturate(quotient((position.w - center.w) * ONE, radius)),
    }
}

/// The vector from the origin of the ray to the center of the sphere.
pub open spec fn to_center(sphere: HyperSphere, ray: Ray) -> VectorModel {
    vector_difference(sphere.position@, ray.origin@)
}

/// The discriminant `h² - a c` of the equation `a t² - 2 h t + c = 0` of the
/// points where the line of the ray meets the sphere: with `oc` the vector from
/// the origin of the ray to the center, `a = d·d`, `h = d·oc` and
/// `c = oc·oc - r²`.
pub open spec fn discriminant(sphere: HyperSphere, ray: Ray) -> int {
    let oc = to_center(sphere, ray);
    let a = dot(ray.direction@, ray.direction@);
    let h = dot(ray.direction@, oc);
    let c = dot(oc, oc) - sphere.radius * sphere.radius;
    h * h - a * c
}

/// Where the ray first meets the hypersphere, if it does.
///
/// The ray meets the sphere at the nearer root `(h - sqrt(h² - a c)) / a` of
/// the equation of `discriminant`. There is no hit where the discriminant is
/// negative, nor where the nearer root is not strictly positive. A ray without
/// direction and a sphere without radius meet nowhere.
pub open spec fn sphere_hit(sphere: HyperSphere, ray: Ray) -> Option<HitModel> {
    let a = dot(ray.direction@, ray.direction@);
    let h = dot(ray.direction@, to_center(sphere, ray));
    let discriminant = discriminant(sphere, ray);
    let t = quotient((h - floor_sqrt(discriminant)) * ONE, a);
    if a == 0 || sphere.radius == 0 || discriminant < 0 || t <= 0 {
        None
    } else {
        let position = point_along(ray, saturate(t));
        Some(
            HitModel {
                distance: saturate(t),
                position,
                normal: sphere_normal(position, sphere.position@, sphere.radius as int),
                material: sphere.material,
            },
        )
    }
}

/// The unit normal of a plane, turned against a ray that meets it with the
/// given `n·d`.
pub open spec fn facing_normal(normal: VectorModel, denominator: int) -> VectorModel {
    if denominator > 0 {
        saturated_vector(scale_vector(normal, -1))
    } else {
        normal
    }
}

/// Where the ray meets the hyperplane, if it does.
///
/// The ray meets the plane at `t = (p - o)·n / n·d`. There is no hit where `t`
/// is not strictly positive, nor where the ray is parallel to the plane. The
/// normal of the hit is the plane's, turned to face against the ray.
pub open spec fn plane_hit(plane: HyperPlane, ray: Ray) -> Option<HitModel> {
    let denominator = dot(plane.normal@, ray.direction@);
    let numerator = dot(vector_difference(plane.position@, ray.origin@), plane.normal@);
    let t = quotient(numerator * ONE, denominator);
    if denominator == 0 || t <= 0 {
        None
    } else {
        Some(
            HitModel {
                distance: saturate(t),
                position: point_along(ray, saturate(t)),
                normal: facing_normal(plane.normal@, denominator),
                material: plane.material,
            },
        )
    }
}

/// The inner product of two vectors of 128-bit integers, whose coordinates
/// have magnitudes at most `la` and `lb`.
fn wide_dot(
    a: (i128, i128, i128, i128),
    b: (i128, i128, i128, i128),
    Ghost(la): Ghost<int>,
    Ghost(lb): Ghost<int>,
) -> (r: i128)
    requires
        -la <= a.0 <= la,
        -la <= a.1 <= la,
        -la <= a.2 <= la,
        -la <= a.3 <= la,
        -lb <= b.0 <= lb,
        -lb <= b.1 <= lb,
        -lb <= b.2 <= lb,
        -lb <= b.3 <= lb,
        4 * (la * lb) <= i128::MAX,
    ensures
        r == a.0 * b.0 + a.1 * b.1 + a.2 * b.2 + a.3 * b.3,
        -(4 * (la * lb)) <= r <= 4 * (la * lb),
{
    bounded_mul(a.0, b.0, Ghost(la), Ghost(lb)) + bounded_mul(a.1, b.1, Ghost(la), Ghost(lb))
        + bounded_mul(a.2, b.2, Ghost(la), Ghost(lb)) + bounded_mul(
        a.3,
        b.3,
        Ghost(la),
        Ghost(lb),
    )
}

/// The coordinates of a vector as 128-bit integers.
fn widen(v: Vector4) -> (r: (i128, i128, i128, i128))
    ensures
        r.0 == v.x,
        r.1 == v.y,
        r.2 == v.z,
        r.3 == v.w,
{
    (v.x as i128, v.y as i128, v.z as i128, v.w as i128)
}

/// The difference of two vectors as 128-bit integers.
fn wide_difference(a: Vector4, b: Vector4) -> (r: (i128, i128, i128, i128))
    ensures
        r.0 == a.x - b.x,
        r.1 == a.y - b.y,
        r.2 == a.z - b.z,
        r.3 == a.w - b.w,
{
    (
        a.x as i128 - b.x as i128,
        a.y as i128 - b.y as i128,
        a.z as i128 - b.z as i128,
        a.w as i128 - b.w as i128,
    )
}

impl Vector4 {
    /// Whether every coordinate is within the world limit.
    pub fn in_world(&self) -> (r: bool)
        ensures
            r == in_world(*self),
    {
        -WORLD_LIMIT <= self.x && self.x <= WORLD_LIMIT && -WORLD_LIMIT <= self.y && self.y
            <= WORLD_LIMIT && -WORLD_LIMIT <= self.z && self.z <= WORLD_LIMIT && -WORLD_LIMIT
            <= self.w && self.w <= WORLD_LIMIT
    }
}

impl Ray {
    /// Origin and direction are within the world limit.
    pub open spec fn spec_in_world(self) -> bool {
        in_world(self.origin) && in_world(self.direction)
    }

    /// Whether origin and direction are within the world limit.
    pub fn in_world(&self) -> (r: bool)
        ensures
            r == self.spec_in_world(),
    {
        self.origin.in_world() && self.direction.in_world()
    }

    /// The point of the ray at the given distance from its origin.
    pub fn at(&self, distance: Scalar) -> (r: Vector4)
        ensures
            r@ == point_along(*self, distance as int),
    {
        self.origin.advance(self.direction, distance)
    }
}

impl HyperSphere {
    /// Center and radius are within the world limit.
    pub open spec fn spec_in_world(self) -> bool {
        in_world(self.position) && scalar_in_world(self.radius)
    }

    /// Whether center and radius are within the world limit.
    pub fn in_world(&self) -> (r: bool)
        ensures
            r == self.spec_in_world(),
    {
        self.position.in_world() && -WORLD_LIMIT <= self.radius && self.radius <= WORLD_LIMIT
    }
}

impl HyperPlane {
    /// Point and normal are within the world limit.
    pub open spec fn spec_in_world(self) -> bool {
        in_world(self.position) && in_world(self.normal)
    }

    /// Whether point and normal are within the world limit.
    pub fn in_world(&self) -> (r: bool)
        ensures
            r == self.spec_in_world(),
    {
        self.position.in_world() && self.normal.in_world()
    }
}

/// What a ray can be intersected with.
pub trait RayIntersect {
    /// The object lies within the world limit.
    spec fn within_world(&self) -> bool;

    /// Where the ray first meets the object, if it does.
    spec fn hit(&self, ray: Ray) -> Option<HitModel>;

    /// Where the ray first meets the object, if it does.
    fn intersect(&self, ray: Ray) -> (r: Option<Hit>)
        requires
            self.within_world(),
            ray.spec_in_world(),
        ensures
            hit_view(r) == self.hit(ray),
    ;
}

impl RayIntersect for HyperSphere {
    open spec fn within_world(&self) -> bool {
        self.spec_in_world()
    }

    open spec fn hit(&self, ray: Ray) -> Option<HitModel> {
        sphere_hit(*self, ray)
    }

    fn intersect(&self, ray: Ray) -> (r: Option<Hit>) {
        let d = widen(ray.direction);
        let oc = wide_difference(self.position, ray.origin);
        let a = wide_dot(d, d, Ghost(0x2000_0000), Ghost(0x2000_0000));
        let h = wide_dot(d, oc, Ghost(0x2000_0000), Ghost(0x4000_0000));
        let radius = self.radius as i128;
        let c = wide_dot(oc, oc, Ghost(0x4000_0000), Ghost(0x4000_0000)) - bounded_mul(
            radius,
            radius,
            Ghost(0x2000_0000),
            Ghost(0x2000_0000),
        );
        let discriminant = bounded_mul(
            h,
            h,
            Ghost(0x2000_0000_0000_0000),
            Ghost(0x2000_0000_0000_0000),
        ) - bounded_mul(a, c, Ghost(0x1000_0000_0000_0000), Ghost(0x8000_0000_0000_0000));
        if a == 0 || self.radius == 0 || discriminant < 0 {
            return None;
        }
        proof {
            lemma_square_nonnegative(d.0 as int);
            lemma_square_nonnegative(d.1 as int);
            lemma_square_nonnegative(d.2 as int);
            lemma_square_nonnegative(d.3 as int);
        }
        let root = isqrt(discriminant as u128) as i128;
        let t = divide((h - root) * 65536, a);
        if t <= 0 {
            return None;
        }
        let distance = narrow(t);
        let position = ray.at(distance);
        let normal = Vector4 {
            x: narrow(divide((position.x as i128 - self.position.x as i128) * 65536, radius)),
            y: narrow(divide((position.y as i128 - self.position.y as i128) * 65536, radius)),
            z: narrow(divide((position.z as i128 - self.position.z as i128) * 65536, radius)),
            w: narrow(divide((position.w as i128 - self.position.w as i128) * 65536, radius)),
        };
        Some(Hit { distance, position, normal, material: self.material })
    }
}

impl RayIntersect for HyperPlane {
    open spec fn within_world(&self) -> bool {
        self.spec_in_world()
    }

    open spec fn hit(&self, ray: Ray) -> Option<HitModel> {
        plane_hit(*self, ray)
    }

    fn intersect(&self, ray: Ray) -> (r: Option<Hit>) {
        let n = widen(self.normal);
        let denominator = wide_dot(n, widen(ray.direction), Ghost(0x2000_0000), Ghost(0x2000_0000));
        let numerator = wide_dot(
            wide_difference(self.position, ray.origin),
            n,
            Ghost(0x4000_0000),
            Ghost(0x2000_0000),
        );
        if denominator == 0 {
            return None;
        }
        let t = divide(numerator * 65536, denominator);
        if t <= 0 {
            return None;
        }
        let distance = narrow(t);
        let position = ray.at(distance);
        let normal = if denominator > 0 {
            Vector4 {
                x: negate(self.normal.x),
                y: negate(self.normal.y),
                z: negate(self.normal.z),
                w: negate(self.normal.w),
            }
        } else {
            self.normal
        };
        Some(Hit { distance, position, normal, material: self.material })
    }
}

impl RayIntersect for Object {
    open spec fn within_world(&self) -> bool {
        match self {
            Object::HyperSphere(hyper_sphere) => hyper_sphere.spec_in_world(),
            Object::HyperPlane(hyper_plane) => hyper_plane.spec_in_world(),
        }
    }

    open spec fn hit(&self, ray: Ray) -> Option<HitModel> {
        match self {
            Object::HyperSphere(hyper_sphere) => sphere_hit(*hyper_sphere, ray),
            Object::HyperPlane(hyper_plane) => plane_hit(*hyper_plane, ray),
        }
    }

    fn intersect(&self, ray: Ray) -> (r: Option<Hit>) {
        match self {
            Object::HyperSphere(hyper_sphere) => hyper_sphere.intersect(ray),
            Object::HyperPlane(hyper_plane) => hyper_plane.intersect(ray),
        }
    }
}

/// A hit lies ahead of the origin of the ray, at the point of the ray with
/// the distance of the hit, and has the material of the object.
pub proof fn law_hit_is_ahead(object: Object, ray: Ray)
    ensures
        match object.hit(ray) {
            Some(hit) => {
                &&& 0 < hit.distance <= i32::MAX
                &&& hit.position == point_along(ray, hit.distance)
                &&& hit.material == match object {
                    Object::HyperSphere(hyper_sphere) => hyper_sphere.material,
                    Object::HyperPlane(hyper_plane) => hyper_plane.material,
                }
            },
            None => true,
        },
{
}

/// A hyperplane is hit with its own normal or with the opposite one: with the
/// one whose inner product with the direction of the ray is negative.
pub proof fn law_plane_normal_faces_the_ray(plane: HyperPlane, ray: Ray)
    requires
        plane.spec_in_world(),
    ensures
        match plane_hit(plane, ray) {
            Some(hit) => {
                &&& hit.normal == plane.normal@ || hit.normal == scale_vector(plane.normal@, -1)
                &&& dot(hit.normal, ray.direction@) < 0
            },
            None => true,
        },
{
    let n = plane.normal@;
    let d = ray.direction@;
    lemma_mul_signs(n.x, d.x);
    lemma_mul_signs(n.y, d.y);
    lemma_mul_signs(n.z, d.z);
    lemma_mul_signs(n.w, d.w);
    assert(scale_vector(n, -1) == (VectorModel { x: -n.x, y: -n.y, z: -n.z, w: -n.w }));
}

} // verus!
