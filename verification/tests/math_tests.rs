use neat::math::{
    clamp_i128, cos_micro, div_trunc_i128, isqrt_u128, sin_micro, wrap_angle, Vec3,
    HALF_PI_MICRO, PI_MICRO, TWO_PI_MICRO, VEC_LIMIT,
};

#[test]
fn isqrt_small_values() {
    assert_eq!(isqrt_u128(0), 0);
    assert_eq!(isqrt_u128(1), 1);
    assert_eq!(isqrt_u128(3), 1);
    assert_eq!(isqrt_u128(4), 2);
    assert_eq!(isqrt_u128(24), 4);
    assert_eq!(isqrt_u128(25), 5);
    assert_eq!(isqrt_u128(2_000_000), 1414);
}

#[test]
fn isqrt_large_values() {
    assert_eq!(isqrt_u128(u128::from(u64::MAX)) , 4294967295);
    let big: u128 = 12_000_000_000_000_000_000_000_000;
    let r = isqrt_u128(big) as u128;
    assert!(r * r <= big);
    assert!((r + 1) * (r + 1) > big);
}

#[test]
fn vec3_length() {
    let v = Vec3::xyz(3000, 4000, 0);
    assert_eq!(v.len_sq(), 25_000_000);
    assert_eq!(v.len(), 5000);
    let u = Vec3::xyz(1000, 1000, 1000);
    assert_eq!(u.len(), 1732);
}

#[test]
fn vec3_arithmetic() {
    let a = Vec3::xyz(1, 2, 3);
    let b = Vec3::xyz(10, 20, 30);
    assert_eq!(a.add(b), Vec3::xyz(11, 22, 33));
    assert_eq!(b.sub(a), Vec3::xyz(9, 18, 27));
    assert_eq!(a.to(b), Vec3::xyz(9, 18, 27));
    assert_eq!(a.neg(), Vec3::xyz(-1, -2, -3));
    assert_eq!(Vec3::new(), Vec3::xyz(0, 0, 0));
}

#[test]
fn clamp_and_division() {
    assert_eq!(clamp_i128(5, 10), 5);
    assert_eq!(clamp_i128(50, 10), 10);
    assert_eq!(clamp_i128(-50, 10), -10);
    assert_eq!(clamp_i128(i128::from(VEC_LIMIT) + 1, VEC_LIMIT), VEC_LIMIT);
    assert_eq!(div_trunc_i128(7, 2), 3);
    assert_eq!(div_trunc_i128(-7, 2), -3);
    assert_eq!(div_trunc_i128(0, 5), 0);
}

#[test]
fn sine_and_cosine() {
    assert_eq!(sin_micro(0), 0);
    assert_eq!(sin_micro(HALF_PI_MICRO), 1000);
    assert_eq!(sin_micro(PI_MICRO), 0);
    assert_eq!(cos_micro(0), 1000);
    // sin(pi/6) = 0.5 exactly under the rounded approximation
    assert_eq!(sin_micro(PI_MICRO / 6), 500);
    assert_eq!(cos_micro(HALF_PI_MICRO), 0);
    // the second half of the turn is the negated first half
    assert_eq!(sin_micro(PI_MICRO + HALF_PI_MICRO), -1000);
}

#[test]
fn angle_wrapping() {
    assert_eq!(wrap_angle(0), 0);
    assert_eq!(wrap_angle(TWO_PI_MICRO), 0);
    assert_eq!(wrap_angle(TWO_PI_MICRO + 5), 5);
    assert_eq!(wrap_angle(-1), TWO_PI_MICRO - 1);
    assert_eq!(wrap_angle(-TWO_PI_MICRO), 0);
}
