use ray_tracer::scalar::{divide, isqrt, narrow, negate, FRAC_PI_2, ONE};
use ray_tracer::vector::Vector4;

#[test]
fn one_has_sixteen_fractional_bits() {
    assert_eq!(ONE, 1 << 16);
    assert_eq!(FRAC_PI_2, 102944);
}

#[test]
fn narrow_saturates_at_both_ends() {
    assert_eq!(narrow(0), 0);
    assert_eq!(narrow(-5), -5);
    assert_eq!(narrow(i32::MAX as i128), i32::MAX);
    assert_eq!(narrow(i32::MAX as i128 + 1), i32::MAX);
    assert_eq!(narrow(i32::MIN as i128), i32::MIN);
    assert_eq!(narrow(i32::MIN as i128 - 1), i32::MIN);
    assert_eq!(narrow(i128::MAX), i32::MAX);
    assert_eq!(narrow(i128::MIN), i32::MIN);
}

#[test]
fn negate_saturates_the_most_negative_scalar() {
    assert_eq!(negate(5), -5);
    assert_eq!(negate(-5), 5);
    assert_eq!(negate(0), 0);
    assert_eq!(negate(i32::MAX), -i32::MAX);
    assert_eq!(negate(i32::MIN), i32::MAX);
}

#[test]
fn divide_rounds_toward_zero() {
    assert_eq!(divide(7, 2), 3);
    assert_eq!(divide(-7, 2), -3);
    assert_eq!(divide(7, -2), -3);
    assert_eq!(divide(-7, -2), 3);
    assert_eq!(divide(6, 3), 2);
    assert_eq!(divide(-6, 3), -2);
    assert_eq!(divide(0, 5), 0);
    assert_eq!(divide(-1, 65536), 0);
    assert_eq!(divide(65535, 65536), 0);
    assert_eq!(divide(-65536, 65536), -1);
    assert_eq!(divide(i128::MAX, 1), i128::MAX);
    assert_eq!(divide(i128::MAX, -1), -i128::MAX);
}

#[test]
fn isqrt_rounds_down() {
    assert_eq!(isqrt(0), 0);
    assert_eq!(isqrt(1), 1);
    assert_eq!(isqrt(2), 1);
    assert_eq!(isqrt(3), 1);
    assert_eq!(isqrt(4), 2);
    assert_eq!(isqrt(15), 3);
    assert_eq!(isqrt(16), 4);
    assert_eq!(isqrt(17), 4);
    assert_eq!(isqrt(3128000000), 55928);
    assert_eq!(isqrt((ONE as u128) * (ONE as u128)), ONE as u64);
    assert_eq!(isqrt((ONE as u128) * (ONE as u128) - 1), ONE as u64 - 1);
    assert_eq!(isqrt(u128::MAX), u64::MAX);
    assert_eq!(isqrt(u64::MAX as u128 * u64::MAX as u128), u64::MAX);
    assert_eq!(isqrt(u64::MAX as u128 * u64::MAX as u128 - 1), u64::MAX - 1);
}

#[test]
fn isqrt_is_the_largest_integer_whose_square_fits() {
    for x in 0..5000u128 {
        let r = isqrt(x) as u128;
        assert!(r * r <= x && x < (r + 1) * (r + 1));
    }
}

#[test]
fn vectors_add_and_subtract_with_saturation() {
    let a = Vector4::new(1, -2, i32::MAX, i32::MIN);
    let b = Vector4::new(10, 20, 1, -1);
    assert_eq!(a.plus(b), Vector4::new(11, 18, i32::MAX, i32::MIN));
    assert_eq!(a.minus(b), Vector4::new(-9, -22, i32::MAX - 1, i32::MIN + 1));
    assert_eq!(Vector4::zero(), Vector4::new(0, 0, 0, 0));
    assert_eq!(a.plus(Vector4::zero()), a);
}

#[test]
fn vectors_scale_and_multiply_in_fixed_point() {
    let v = Vector4::new(3 * ONE, -ONE / 2, 1, -1);
    assert_eq!(v.scaled(2 * ONE), Vector4::new(6 * ONE, -ONE, 2, -2));
    assert_eq!(v.scaled(ONE / 2), Vector4::new(3 * ONE / 2, -ONE / 4, 0, 0));
    assert_eq!(v.scaled(-ONE), Vector4::new(-3 * ONE, ONE / 2, -1, 1));
    let a = Vector4::new(ONE, 2 * ONE, 3 * ONE, 4 * ONE);
    let b = Vector4::new(-ONE, ONE, ONE / 2, 0);
    assert_eq!(a.dot(b), -ONE + 2 * ONE + 3 * ONE / 2);
    assert_eq!(a.wide_dot(b), (a.dot(b) as i128) * (ONE as i128));
    assert_eq!(a.dot(a), 30 * ONE);
}

#[test]
fn advance_goes_along_the_direction() {
    let p = Vector4::new(ONE, ONE, ONE, ONE);
    let d = Vector4::new(ONE, 0, -ONE, ONE / 2);
    assert_eq!(p.advance(d, 3 * ONE), Vector4::new(4 * ONE, ONE, -2 * ONE, 5 * ONE / 2));
    assert_eq!(p.advance(d, 0), p);
}
