use ray_tracer::algebra::Plane;
use ray_tracer::objects::HyperSphere;
use ray_tracer::ray::{Ray, RayIntersect};
use ray_tracer::rotor::{HalfAngle, Rotor};
use ray_tracer::scalar::ONE;
use ray_tracer::vector::Vector4;

/// A sequence of numbers that looks random and is the same in every run.
struct Numbers(u64);

impl Numbers {
    fn next(&mut self) -> u64 {
        self.0 = self.0.wrapping_mul(6364136223846793005).wrapping_add(1442695040888963407);
        self.0 >> 33
    }

    /// A number between `-limit` and `limit`.
    fn within(&mut self, limit: i32) -> i32 {
        (self.next() % (2 * limit as u64 + 1)) as i32 - limit
    }
}

fn half_angle(radians: f64) -> HalfAngle {
    let (sin, cos) = (radians / 2.0).sin_cos();
    HalfAngle { cos: (cos * ONE as f64).round() as i32, sin: (sin * ONE as f64).round() as i32 }
}

const PLANES: [Plane; 6] = [Plane::XY, Plane::XZ, Plane::XW, Plane::YZ, Plane::YW, Plane::ZW];

/// A rotation composed of one rotation in each of the six planes, normalized.
fn rotation(numbers: &mut Numbers) -> Rotor {
    let mut r = Rotor::identity();
    for plane in PLANES {
        let angle = numbers.within(3141) as f64 / 1000.0;
        r = r.compose(Rotor::in_plane(plane, half_angle(angle))).normalized();
    }
    r
}

fn vector(numbers: &mut Numbers, limit: i32) -> Vector4 {
    Vector4::new(
        numbers.within(limit),
        numbers.within(limit),
        numbers.within(limit),
        numbers.within(limit),
    )
}

/// What two results for the vector `v` may differ by: a thousandth of its
/// size, for the rounding of the rotors, and four units of the last place.
fn tolerance(v: Vector4) -> i64 {
    let size = [v.x, v.y, v.z, v.w].iter().map(|c| (*c as i64).abs()).sum::<i64>();
    size / 1000 + 4
}

fn distance(a: Vector4, b: Vector4) -> i64 {
    let d = [a.x - b.x, a.y - b.y, a.z - b.z, a.w - b.w];
    d.iter().map(|c| (*c as i64).abs()).max().unwrap_or(0)
}

#[test]
fn rounded_rotations_have_nearly_unit_magnitude() {
    let mut numbers = Numbers(1);
    for _ in 0..200 {
        let r = rotation(&mut numbers);
        assert!((r.magnitude() - ONE).abs() <= 8);
    }
}

#[test]
fn rotating_twice_is_nearly_rotating_once_by_the_composition() {
    let mut numbers = Numbers(2);
    for _ in 0..200 {
        let a = rotation(&mut numbers);
        let b = rotation(&mut numbers);
        assert!(a.is_moderate() && b.is_moderate());
        // For rotors of moderate size and vectors of up to 512 units, the two
        // results differ by at most eleven units of the last place and a
        // thousandth of the largest coordinate.
        let v = vector(&mut numbers, 100 * ONE);
        let largest = [v.x, v.y, v.z, v.w].iter().map(|c| (*c as i64).abs()).max().unwrap_or(0);
        assert!(distance(b.rotate(a.rotate(v)), b.compose(a).rotate(v)) <= 11 + largest / 1000);
    }
}

#[test]
fn rotating_by_a_rotation_and_its_reverse_nearly_returns_the_vector() {
    let mut numbers = Numbers(3);
    for _ in 0..200 {
        let r = rotation(&mut numbers);
        let v = vector(&mut numbers, 100 * ONE);
        assert!(distance(r.reverse().compose(r).rotate(v), v) <= tolerance(v));
        assert!(distance(r.reverse().rotate(r.rotate(v)), v) <= tolerance(v));
    }
}

#[test]
fn rotations_nearly_preserve_lengths() {
    let mut numbers = Numbers(4);
    for _ in 0..200 {
        let r = rotation(&mut numbers);
        let v = vector(&mut numbers, 100 * ONE);
        let before = (v.wide_dot(v) as f64).sqrt();
        let after = (r.rotate(v).wide_dot(r.rotate(v)) as f64).sqrt();
        assert!((before - after).abs() <= tolerance(v) as f64);
    }
}

#[test]
fn rotations_of_one_plane_nearly_add_their_angles() {
    let mut numbers = Numbers(5);
    for _ in 0..200 {
        let first = numbers.within(3141) as f64 / 1000.0;
        let second = numbers.within(3141) as f64 / 1000.0;
        for plane in PLANES {
            let composed = Rotor::in_plane(plane, half_angle(first))
                .compose(Rotor::in_plane(plane, half_angle(second)));
            let direct = Rotor::in_plane(plane, half_angle(first + second));
            let c = [
                composed.s - direct.s,
                composed.e12 - direct.e12,
                composed.e13 - direct.e13,
                composed.e14 - direct.e14,
                composed.e23 - direct.e23,
                composed.e24 - direct.e24,
                composed.e34 - direct.e34,
                composed.e1234 - direct.e1234,
            ];
            assert!(c.iter().all(|d| d.abs() <= 2));
        }
    }
}

#[test]
fn normals_of_sphere_hits_are_nearly_unit() {
    let mut numbers = Numbers(6);
    let mut hits = 0;
    for _ in 0..500 {
        let origin = vector(&mut numbers, 20 * ONE);
        let sphere = HyperSphere {
            position: vector(&mut numbers, 20 * ONE),
            radius: ONE / 2 + numbers.within(5 * ONE).abs(),
            material: 0,
        };
        // A direction of unit length toward a point near the center.
        let aim = sphere.position.plus(vector(&mut numbers, sphere.radius / 2)).minus(origin);
        let length = (aim.wide_dot(aim) as f64).sqrt();
        if length == 0.0 {
            continue;
        }
        let toward = |c: i32| (c as f64 / length * ONE as f64).round() as i32;
        let ray = Ray {
            origin,
            direction: Vector4::new(toward(aim.x), toward(aim.y), toward(aim.z), toward(aim.w)),
        };
        if let Some(hit) = sphere.intersect(ray) {
            hits += 1;
            let normal = (hit.normal.wide_dot(hit.normal) as f64).sqrt() / ONE as f64;
            assert!((normal - 1.0).abs() <= 0.001);
            assert!(hit.distance > 0);
            assert_eq!(hit.position, ray.at(hit.distance));
        }
    }
    assert!(hits > 300);
}
