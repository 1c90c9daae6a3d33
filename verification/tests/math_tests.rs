//! Fixed-point helpers: integer square roots, truncating division, vectors.

use playerctl::math::{div_toward_zero, isqrt, isqrt_ceil, Vec3Milli};

#[test]
fn isqrt_exact_values() {
    assert_eq!(isqrt(0), 0);
    assert_eq!(isqrt(1), 1);
    assert_eq!(isqrt(3), 1);
    assert_eq!(isqrt(4), 2);
    assert_eq!(isqrt(99), 9);
    assert_eq!(isqrt(100), 10);
    assert_eq!(isqrt(1_000_000), 1000);
    assert_eq!(isqrt(2_000_000), 1414);
    assert_eq!(isqrt(u64::MAX), 0xFFFF_FFFF);
}

#[test]
fn isqrt_ceil_exact_values() {
    assert_eq!(isqrt_ceil(0), 0);
    assert_eq!(isqrt_ceil(1), 1);
    assert_eq!(isqrt_ceil(2), 2);
    assert_eq!(isqrt_ceil(4), 2);
    assert_eq!(isqrt_ceil(5), 3);
    assert_eq!(isqrt_ceil(1_000_000), 1000);
    assert_eq!(isqrt_ceil(1_000_001), 1001);
}

#[test]
fn division_truncates_toward_zero() {
    assert_eq!(div_toward_zero(170, 100), 1);
    assert_eq!(div_toward_zero(-170, 100), -1);
    assert_eq!(div_toward_zero(99, 100), 0);
    assert_eq!(div_toward_zero(-99, 100), 0);
    assert_eq!(div_toward_zero(0, 7), 0);
}

#[test]
fn vector_arithmetic_componentwise() {
    let a = Vec3Milli { x: 1, y: -2, z: 3 };
    let b = Vec3Milli { x: 10, y: 20, z: -30 };
    assert_eq!(a.plus(b), Vec3Milli { x: 11, y: 18, z: -27 });
    assert_eq!(b.minus(a), Vec3Milli { x: 9, y: 22, z: -33 });
    assert_eq!(a.scaled(-2), Vec3Milli { x: -2, y: 4, z: -6 });
    assert_eq!(a.length_squared(), 1 + 4 + 9);
    assert_eq!(Vec3Milli::zero(), Vec3Milli { x: 0, y: 0, z: 0 });
}
