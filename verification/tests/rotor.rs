use ray_tracer::algebra::Plane;
use ray_tracer::rotor::{HalfAngle, Rotor};
use ray_tracer::scalar::ONE;
use ray_tracer::vector::Vector4;

const HALF: i32 = ONE / 2;

fn rotor(c: [i32; 8]) -> Rotor {
    Rotor {
        s: c[0],
        e12: c[1],
        e13: c[2],
        e14: c[3],
        e23: c[4],
        e24: c[5],
        e34: c[6],
        e1234: c[7],
    }
}

/// `(1 + e12 + e13 + e14) / 2`: a unit rotor with exact coefficients.
fn unit_a() -> Rotor {
    rotor([HALF, HALF, HALF, HALF, 0, 0, 0, 0])
}

/// `(1 + e23 + e24 + e34) / 2`: another one.
fn unit_b() -> Rotor {
    rotor([HALF, 0, 0, 0, HALF, HALF, HALF, 0])
}

fn sample() -> Vector4 {
    Vector4::new(3 * ONE, -2 * ONE, 5 * ONE, 7 * ONE)
}

fn axes() -> [Vector4; 4] {
    [
        Vector4::new(ONE, 0, 0, 0),
        Vector4::new(0, ONE, 0, 0),
        Vector4::new(0, 0, ONE, 0),
        Vector4::new(0, 0, 0, ONE),
    ]
}

#[test]
fn identity_has_scalar_one_and_nothing_else() {
    assert_eq!(Rotor::identity(), rotor([ONE, 0, 0, 0, 0, 0, 0, 0]));
}

#[test]
fn rotating_by_identity_returns_the_vector() {
    let vectors = [
        sample(),
        Vector4::new(0, 0, 0, 0),
        Vector4::new(1, -1, 65535, -65537),
        Vector4::new(i32::MAX, i32::MIN, 123456789, -987654321),
    ];
    for v in vectors {
        assert_eq!(Rotor::identity().rotate(v), v);
    }
}

#[test]
fn reverse_negates_the_six_bivector_coefficients() {
    let r = rotor([1, 2, -3, 4, -5, 6, -7, 8]);
    assert_eq!(r.reverse(), rotor([1, -2, 3, -4, 5, -6, 7, 8]));
    assert_eq!(r.reverse().reverse(), r);
}

#[test]
fn reverse_saturates_the_most_negative_coefficient() {
    let r = rotor([0, i32::MIN, 0, 0, 0, 0, 0, 0]);
    assert_eq!(r.reverse(), rotor([0, i32::MAX, 0, 0, 0, 0, 0, 0]));
}

#[test]
fn reverse_of_a_unit_rotor_composed_with_it_is_the_identity() {
    for r in [unit_a(), unit_b(), unit_b().compose(unit_a())] {
        assert_eq!(r.reverse().compose(r), Rotor::identity());
        assert_eq!(r.compose(r.reverse()), Rotor::identity());
        assert_eq!(r.reverse().compose(r).rotate(sample()), sample());
    }
}

#[test]
fn rotating_by_a_rotor_and_then_by_its_reverse_returns_the_vector() {
    for r in [unit_a(), unit_b()] {
        assert_eq!(r.reverse().rotate(r.rotate(sample())), sample());
    }
}

#[test]
fn rotate_matches_the_sandwich_product() {
    assert_eq!(unit_a().rotate(sample()), Vector4::new(-98304, -32768, 229376, 557056));
    assert_eq!(unit_b().rotate(sample()), Vector4::new(196608, 458752, -131072, 327680));
    let p = rotor([40000, -12000, 30000, 5000, -20000, 7000, 1000, -3000]);
    let w = Vector4::new(123456, -654321, 1000000, -42);
    assert_eq!(p.rotate(w), Vector4::new(730931, -138234, 417475, 158617));
}

#[test]
fn compose_matches_the_geometric_product() {
    assert_eq!(
        unit_b().compose(unit_a()),
        rotor([16384, 49152, 16384, -16384, 16384, 16384, 16384, 16384])
    );
    assert_eq!(
        unit_a().compose(unit_b()),
        rotor([16384, -16384, 16384, 49152, 16384, 16384, 16384, 16384])
    );
    let p = rotor([40000, -12000, 30000, 5000, -20000, 7000, 1000, -3000]);
    let q = rotor([-15000, 22000, 9000, -31000, 4000, 60000, -8000, 12000]);
    assert_eq!(p.compose(q), rotor([-12496, 3158, 3280, -33355, 18173, 38482, 31707, -8850]));
    assert_eq!(q.compose(p), rotor([-12496, 28091, -8956, 915, -8804, 41717, -35522, -8850]));
}

#[test]
fn composition_is_not_commutative() {
    assert_ne!(unit_a().compose(unit_b()), unit_b().compose(unit_a()));
}

#[test]
fn composing_with_the_identity_changes_nothing() {
    let p = rotor([40000, -12000, 30000, 5000, -20000, 7000, 1000, -3000]);
    assert_eq!(Rotor::identity().compose(p), p);
    assert_eq!(p.compose(Rotor::identity()), p);
}

#[test]
fn rotating_twice_is_rotating_once_by_the_composition() {
    let a = unit_a();
    let b = unit_b();
    let once = b.compose(a).rotate(sample());
    assert_eq!(b.rotate(a.rotate(sample())), once);
    assert_eq!(once, Vector4::new(-98304, 557056, -32768, 229376));
}

#[test]
fn composition_of_unit_rotors_has_unit_magnitude() {
    let c = unit_b().compose(unit_a());
    assert_eq!(c.magnitude(), ONE);
    assert_eq!(c.magnitude_squared(), ONE);
    assert_eq!(c.wide_magnitude_squared(), (ONE as i128) * (ONE as i128));
}

#[test]
fn magnitude_is_the_rounded_down_square_root() {
    let p = rotor([40000, -12000, 30000, 5000, -20000, 7000, 1000, -3000]);
    assert_eq!(p.wide_magnitude_squared(), 3128000000);
    assert_eq!(p.magnitude_squared(), 47729);
    assert_eq!(p.magnitude(), 55928);
    assert_eq!(rotor([0; 8]).magnitude(), 0);
    assert_eq!(rotor([i32::MIN; 8]).magnitude(), i32::MAX);
}

#[test]
fn normalizing_divides_by_the_magnitude() {
    let p = rotor([40000, -12000, 30000, 5000, -20000, 7000, 1000, -3000]);
    assert_eq!(
        p.normalized(),
        rotor([46871, -14061, 35153, 5858, -23435, 8202, 1171, -3515])
    );
    assert_eq!(p.normalized().magnitude(), ONE - 1);
}

#[test]
fn normalizing_a_scaled_unit_rotor_gives_the_unit_rotor() {
    for k in [1, 2, 3, 1000, 65535] {
        let scaled = rotor([HALF * k, HALF * k, HALF * k, HALF * k, 0, 0, 0, 0]);
        assert_eq!(scaled.normalized(), unit_a());
        assert_eq!(scaled.normalized().magnitude(), ONE);
    }
    assert_eq!(rotor([1, 0, 0, 0, 0, 0, 0, 0]).normalized(), Rotor::identity());
    assert_eq!(rotor([0, 0, 0, 0, 0, -7, 0, 0]).normalized(), rotor([0, 0, 0, 0, 0, -ONE, 0, 0]));
}

#[test]
fn normalizing_the_zero_rotor_returns_it() {
    assert_eq!(rotor([0; 8]).normalized(), rotor([0; 8]));
}

#[test]
fn normalizing_works_at_the_limits_of_the_range() {
    let r = rotor([i32::MIN, i32::MAX, i32::MIN, i32::MAX, i32::MIN, i32::MAX, i32::MIN, i32::MAX]);
    let n = r.normalized();
    assert_eq!(n, rotor([-23170, 23170, -23170, 23170, -23170, 23170, -23170, 23170]));
}

#[test]
fn plane_rotors_hold_cosine_and_signed_sine() {
    let half = HalfAngle { cos: 100, sin: 7 };
    assert_eq!(Rotor::rotation_xy(half), rotor([100, 7, 0, 0, 0, 0, 0, 0]));
    assert_eq!(Rotor::rotation_xz(half), rotor([100, 0, -7, 0, 0, 0, 0, 0]));
    assert_eq!(Rotor::rotation_xw(half), rotor([100, 0, 0, 7, 0, 0, 0, 0]));
    assert_eq!(Rotor::rotation_yz(half), rotor([100, 0, 0, 0, 7, 0, 0, 0]));
    assert_eq!(Rotor::rotation_yw(half), rotor([100, 0, 0, 0, 0, -7, 0, 0]));
    assert_eq!(Rotor::rotation_zw(half), rotor([100, 0, 0, 0, 0, 0, 7, 0]));
    assert_eq!(Rotor::in_plane(Plane::XY, half), Rotor::rotation_xy(half));
    assert_eq!(Rotor::in_plane(Plane::XZ, half), Rotor::rotation_xz(half));
    assert_eq!(Rotor::in_plane(Plane::XW, half), Rotor::rotation_xw(half));
    assert_eq!(Rotor::in_plane(Plane::YZ, half), Rotor::rotation_yz(half));
    assert_eq!(Rotor::in_plane(Plane::YW, half), Rotor::rotation_yw(half));
    assert_eq!(Rotor::in_plane(Plane::ZW, half), Rotor::rotation_zw(half));
}

#[test]
fn rotation_by_the_angle_zero_is_the_identity() {
    let planes = [Plane::XY, Plane::XZ, Plane::XW, Plane::YZ, Plane::YW, Plane::ZW];
    for plane in planes {
        assert_eq!(Rotor::in_plane(plane, HalfAngle::zero()), Rotor::identity());
    }
}

#[test]
fn quarter_turns_take_the_first_axis_of_the_plane_to_the_second() {
    // The cosine and sine of an eighth of a turn, half of the quarter turn.
    let half = HalfAngle { cos: 46341, sin: 46341 };
    let [x, y, z, w] = axes();
    let minus = |v: Vector4| Vector4::new(-v.x, -v.y, -v.z, -v.w);
    let cases = [
        (Plane::XY, [y, minus(x), z, w]),
        (Plane::XZ, [z, y, minus(x), w]),
        (Plane::XW, [w, y, z, minus(x)]),
        (Plane::YZ, [x, z, minus(y), w]),
        (Plane::YW, [x, w, z, minus(y)]),
        (Plane::ZW, [x, y, w, minus(z)]),
    ];
    for (plane, images) in cases {
        let r = Rotor::in_plane(plane, half);
        for (axis, image) in axes().into_iter().zip(images) {
            assert_eq!(r.rotate(axis), image);
        }
    }
}

#[test]
fn half_turns_reverse_both_axes_of_the_plane() {
    let half = HalfAngle { cos: 0, sin: ONE };
    let [x, y, z, w] = axes();
    let minus = |v: Vector4| Vector4::new(-v.x, -v.y, -v.z, -v.w);
    assert_eq!(Rotor::rotation_xy(half).rotate(x), minus(x));
    assert_eq!(Rotor::rotation_xy(half).rotate(y), minus(y));
    assert_eq!(Rotor::rotation_xy(half).rotate(z), z);
    assert_eq!(Rotor::rotation_xy(half).rotate(w), w);
    assert_eq!(Rotor::rotation_xz(half).rotate(x), minus(x));
    assert_eq!(Rotor::rotation_xz(half).rotate(z), minus(z));
    assert_eq!(Rotor::rotation_xz(half).rotate(y), y);
}

#[test]
fn half_angles_add_by_the_addition_theorems() {
    let a = HalfAngle { cos: 60000, sin: 26350 };
    let b = HalfAngle { cos: -30000, sin: 58000 };
    assert_eq!(a.plus(b), HalfAngle { cos: -50785, sin: 41038 });
    assert_eq!(a.plus(HalfAngle::zero()), a);
    assert!(a.check());
    assert!(!HalfAngle { cos: ONE + 1, sin: 0 }.check());
}

#[test]
fn rotations_of_one_plane_compose_by_adding_their_angles() {
    let planes = [Plane::XY, Plane::XZ, Plane::XW, Plane::YZ, Plane::YW, Plane::ZW];
    let angles = [
        HalfAngle { cos: 60000, sin: 26350 },
        HalfAngle { cos: -30000, sin: 58000 },
        HalfAngle { cos: 46341, sin: -46341 },
        HalfAngle { cos: 0, sin: ONE },
        HalfAngle { cos: -ONE, sin: 0 },
        HalfAngle { cos: 65535, sin: 1 },
    ];
    for plane in planes {
        for a in angles {
            for b in angles {
                let composed = Rotor::in_plane(plane, a).compose(Rotor::in_plane(plane, b));
                assert_eq!(composed, Rotor::in_plane(plane, a.plus(b)));
            }
        }
    }
    let a = HalfAngle { cos: 60000, sin: 26350 };
    let b = HalfAngle { cos: -30000, sin: 58000 };
    assert_eq!(
        Rotor::rotation_yw(a).compose(Rotor::rotation_yw(b)),
        rotor([-50785, 0, 0, 0, 0, -41038, 0, 0])
    );
}

#[test]
fn a_rotor_that_is_not_unit_scales_the_vector() {
    let twice = rotor([2 * ONE, 0, 0, 0, 0, 0, 0, 0]);
    assert_eq!(twice.rotate(Vector4::new(ONE, -ONE, 3, 0)), Vector4::new(4 * ONE, -4 * ONE, 12, 0));
}

#[test]
fn results_out_of_range_are_saturated() {
    let huge = rotor([i32::MAX, 0, 0, 0, 0, 0, 0, 0]);
    assert_eq!(huge.compose(huge).s, i32::MAX);
    assert_eq!(
        huge.rotate(Vector4::new(ONE, -ONE, 0, 0)),
        Vector4::new(i32::MAX, i32::MIN, 0, 0)
    );
}

#[test]
fn unit_rotors_preserve_lengths_and_inner_products() {
    let v = sample();
    let w = Vector4::new(-ONE, 4 * ONE, 0, 2 * ONE);
    for r in [unit_a(), unit_b(), unit_b().compose(unit_a())] {
        assert_eq!(r.rotate(v).wide_dot(r.rotate(v)), v.wide_dot(v));
        assert_eq!(r.rotate(v).wide_dot(r.rotate(w)), v.wide_dot(w));
    }
}

#[test]
fn magnitudes_multiply_under_composition() {
    let twice = rotor([2 * ONE, 0, 0, 0, 0, 0, 0, 0]);
    let thrice = rotor([0, 3 * ONE, 0, 0, 0, 0, 0, 0]);
    assert_eq!(twice.compose(thrice), rotor([0, 6 * ONE, 0, 0, 0, 0, 0, 0]));
    assert_eq!(twice.compose(thrice).magnitude(), 6 * ONE);
    assert_eq!(twice.compose(unit_a()).magnitude(), 2 * ONE);
    assert_eq!(twice.compose(unit_a()).magnitude_squared(), 4 * ONE);
}

#[test]
fn composition_of_rounded_unit_rotors_stays_near_unit_magnitude() {
    // Rotations by a third of a radian in the six planes, composed in turn:
    // cosine and sine of a sixth of a radian, rounded.
    let half = HalfAngle { cos: 64628, sin: 10872 };
    let planes = [Plane::XY, Plane::XZ, Plane::XW, Plane::YZ, Plane::YW, Plane::ZW];
    let mut r = Rotor::identity();
    for _ in 0..20 {
        for plane in planes {
            r = r.compose(Rotor::in_plane(plane, half)).normalized();
            let m = r.magnitude();
            assert!(ONE - 9 <= m && m <= ONE);
        }
    }
}

#[test]
fn composition_is_associative_where_nothing_is_rounded() {
    let a = unit_a();
    let b = unit_b();
    let c = rotor([0, 0, 0, 0, 0, -ONE, 0, 0]);
    assert_eq!(a.compose(b).compose(c), a.compose(b.compose(c)));
    assert_eq!(a.compose(b).reverse(), b.reverse().compose(a.reverse()));
}

#[test]
fn magnitude_one_with_a_pseudoscalar_part_is_no_rotation() {
    // (1 + e13 + e24 + e1234) / 2 has magnitude one, but its product with its
    // reverse is 1 + e1234 and not the scalar one.
    let r = rotor([HALF, 0, HALF, 0, 0, HALF, 0, HALF]);
    assert_eq!(r.magnitude(), ONE);
    assert_eq!(r.reverse().compose(r), rotor([ONE, 0, 0, 0, 0, 0, 0, ONE]));
    assert_eq!(r.reverse().compose(r).rotate(sample()), Vector4::new(0, 0, 0, 0));
}

#[test]
fn unit_rotors_are_recognized() {
    assert!(Rotor::identity().is_unit());
    assert!(unit_a().is_unit());
    assert!(unit_b().is_unit());
    assert!(unit_b().compose(unit_a()).is_unit());
    assert!(Rotor::rotation_zw(HalfAngle { cos: 0, sin: -ONE }).is_unit());
    // Magnitude one, but a pseudoscalar part in the product with the reverse.
    assert!(!rotor([HALF, 0, HALF, 0, 0, HALF, 0, HALF]).is_unit());
    // Rounded cosine and sine: the squares add up to a little more than one.
    assert!(!Rotor::rotation_xy(HalfAngle { cos: 46341, sin: 46341 }).is_unit());
    assert!(!rotor([0; 8]).is_unit());
    assert!(!rotor([i32::MIN; 8]).is_unit());
}

#[test]
fn rotors_of_moderate_size_are_recognized() {
    assert!(Rotor::identity().is_moderate());
    assert!(unit_a().is_moderate());
    assert!(rotor([HALF, 0, HALF, 0, 0, HALF, 0, HALF]).is_moderate());
    assert!(Rotor::rotation_xy(HalfAngle { cos: 46341, sin: 46341 }).is_moderate());
    assert!(rotor([0; 8]).is_moderate());
    assert!(rotor([2 * ONE, 0, 0, 0, 0, 0, 0, 0]).is_moderate());
    assert!(!rotor([2 * ONE + 1, 0, 0, 0, 0, 0, 0, 0]).is_moderate());
    assert!(!rotor([ONE, ONE, ONE, ONE, ONE, 0, 0, 0]).is_moderate());
    assert!(!rotor([i32::MIN; 8]).is_moderate());
    let p = rotor([40000, -12000, 30000, 5000, -20000, 7000, 1000, -3000]);
    assert!(p.normalized().is_moderate());
    assert!(rotor([3, 0, 0, -1, 0, 0, 2, 0]).normalized().is_moderate());
}

#[test]
fn composition_with_the_reverse_is_the_squared_magnitude() {
    let p = rotor([40000, -12000, 30000, 5000, -20000, 7000, 1000, -3000]);
    // The pseudoscalar part of reverse(p) p: twice (s e1234 - e12 e34 + e13 e24 - e14 e23).
    let pseudo: i64 = 2 * (40000 * -3000 - -12000 * 1000 + 30000 * 7000 - 5000 * -20000);
    let expected = rotor([p.magnitude_squared(), 0, 0, 0, 0, 0, 0, (pseudo / ONE as i64) as i32]);
    assert_eq!(p.reverse().compose(p), expected);
    assert_eq!(p.compose(p.reverse()), expected);
}
