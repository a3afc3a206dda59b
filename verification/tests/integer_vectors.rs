use std::ops::Neg;
use vector2::laws::SMALL;
use vector2::sqrt::floor_sqrt_u128;
use vector2::{One, Root, Signed, Vector2};

#[test]
fn new_keeps_both_components() {
    let v = Vector2::new(7i64, -9);
    assert_eq!(v.0, 7);
    assert_eq!(v.1, -9);
    let w = Vector2::new("x", "y");
    assert_eq!(w.0, "x");
    assert_eq!(w.1, "y");
}

#[test]
fn one_is_one_one() {
    assert!(Vector2::<i64>::one() == Vector2(1, 1));
    assert!(Vector2::<i32>::one() == Vector2(1, 1));
    assert!(Vector2::<u8>::one() == Vector2(1, 1));
    assert!(Vector2::<usize>::one() == Vector2(1, 1));
    assert!(Vector2::<i128>::one() == Vector2(1, 1));
    assert_eq!(<i64 as One>::one(), 1);
    assert_eq!(<u16 as One>::one(), 1);
    assert_eq!(<isize as One>::one(), 1);
}

#[test]
fn abs_takes_each_component() {
    assert!(Vector2::new(-3i64, 4).abs() == Vector2(3, 4));
    assert!(Vector2::new(0i64, i64::MIN + 1).abs() == Vector2(0, i64::MAX));
    assert!(Vector2::new(5i32, -6).abs() == Vector2(5, 6));
    assert!(Vector2::new(-127i8, 127).abs() == Vector2(127, 127));
    assert!(Vector2::new(-1i16, 0).abs() == Vector2(1, 0));
    assert!(Vector2::new(i128::MIN + 1, -2).abs() == Vector2(i128::MAX, 2));
    assert!(Vector2::new(-3isize, 3).abs() == Vector2(3, 3));
    assert_eq!(Signed::abs(-7i64), 7);
    assert_eq!(Signed::abs(i64::MAX), i64::MAX);
}

#[test]
fn integer_operators_work_componentwise() {
    let a = Vector2::new(1i64, 2);
    let b = Vector2::new(3i64, -4);
    assert!(a + b == Vector2(4, -2));
    assert!(a - b == Vector2(-2, 6));
    assert!(a * 3 == Vector2(3, 6));
    assert!(a.scale(-3) == Vector2(-3, -6));
    assert!(b / 2 == Vector2(1, -2));
    assert!(Vector2::new(-3i64, 5) / 2 == Vector2(-1, 2));
    assert!(-b == Vector2(-3, 4));
    assert!(b.neg() == Vector2(-3, 4));
    assert_eq!(a * b, -5);
}

#[test]
fn operators_work_on_every_integer_scalar() {
    assert!(Vector2::new(200u8, 1) + Vector2::new(55, 2) == Vector2(255, 3));
    assert!(Vector2::new(7u32, 9) - Vector2::new(7, 4) == Vector2(0, 5));
    assert!(Vector2::new(-4i32, 6) * 5 == Vector2(-20, 30));
    assert!(Vector2::new(-7i16, 7) / 2 == Vector2(-3, 3));
    assert_eq!(Vector2::new(3u64, 4).dot_product(&Vector2::new(5, 6)), 39);
}

#[test]
fn integer_dot_product() {
    let a = Vector2::new(1i64, 0);
    let b = Vector2::new(0i64, 1);
    assert_eq!(a.dot_product(&b), 0);
    let c = Vector2::new(3i64, -4);
    let d = Vector2::new(-2i64, 5);
    assert_eq!(c.dot_product(&d), -26);
    assert_eq!(d.dot_product(&c), -26);
    assert_eq!(c.dot_product(&c), 25);
}

#[test]
fn integer_scaling_and_dividing_cancel() {
    let v = Vector2::new(3i64, -4);
    assert!((v * 7) / 7 == v);
    assert!((v * -7) / -7 == v);
    assert!((v * -1) / -1 == v);
    let w = Vector2::new(i64::MAX / 2, i64::MIN / 2);
    assert!((w * 2) / 2 == w);
}

#[test]
fn integer_projection() {
    let v = Vector2::new(2i64, 0);
    assert!(v.project(&Vector2::new(1, 0)) == Vector2(2, 0));
    let w = Vector2::new(3i64, 4);
    assert!(w.project(&Vector2::new(5, 0)) == Vector2(0, 0));
    assert!(w.project(&Vector2::new(0, 2)) == Vector2(0, 4));
    assert!(w.project(&Vector2::new(1, 1)) == Vector2(3, 3));
}

#[test]
fn integer_magnitude_rounds_down() {
    assert_eq!(Vector2::new(3i64, 4).magnitude(), 5);
    assert_eq!(Vector2::new(-3i64, -4).magnitude(), 5);
    assert_eq!(Vector2::new(1i64, 1).magnitude(), 1);
    assert_eq!(Vector2::new(2i64, 2).magnitude(), 2);
    assert_eq!(Vector2::new(0i64, 0).magnitude(), 0);
    assert_eq!(Vector2::new(0i64, -1).magnitude(), 1);
}

#[test]
fn integer_magnitude_squares_nothing_in_the_scalar_type() {
    assert_eq!(Vector2::new(i64::MAX, 0).magnitude(), i64::MAX);
    assert_eq!(Vector2::new(0, i64::MIN + 1).magnitude(), i64::MAX);
    assert_eq!(
        Vector2::new(3_000_000_000_000_000_000i64, 4_000_000_000_000_000_000).magnitude(),
        5_000_000_000_000_000_000
    );
}

#[test]
fn integer_limit_magnitude() {
    let mut v = Vector2::new(3i64, 4);
    v.limit_magnitude(5);
    assert!(v == Vector2(3, 4));
    v.limit_magnitude(6);
    assert!(v == Vector2(3, 4));
    v.limit_magnitude(4);
    assert!(v == Vector2(0, 0));
    assert_eq!(v.magnitude(), 0);
}

#[test]
fn integer_limit_magnitude_keeps_a_vector_of_the_same_rounded_length() {
    let mut v = Vector2::new(2i64, 2);
    v.limit_magnitude(2);
    assert!(v == Vector2(2, 2));
    assert_eq!(v.magnitude(), 2);
    v.limit_magnitude(1);
    assert!(v == Vector2(0, 0));
    let mut w = Vector2::new(0i64, -1);
    w.limit_magnitude(0);
    assert!(w == Vector2(0, 0));
    let mut z = Vector2::new(0i64, 0);
    z.limit_magnitude(0);
    assert!(z == Vector2(0, 0));
}

#[test]
fn integer_unit_vectors() {
    assert!(Vector2::new(7i64, 0).unit() == Vector2(1, 0));
    assert!(Vector2::new(0i64, -7).unit() == Vector2(0, -1));
    assert!(Vector2::new(2i64, -2).unit() == Vector2(1, -1));
    assert!(Vector2::new(3i64, 4).unit() == Vector2(0, 0));
    assert_eq!(Vector2::new(7i64, 0).unit().magnitude(), 1);
    assert_eq!(Vector2::new(2i64, -2).unit().magnitude(), 1);
    assert_eq!(Vector2::new(3i64, 4).unit().magnitude(), 0);
}

#[test]
fn integer_square_roots() {
    assert_eq!(Root::sqrt(0i64), 0);
    assert_eq!(Root::sqrt(1i64), 1);
    assert_eq!(Root::sqrt(24i64), 4);
    assert_eq!(Root::sqrt(25i64), 5);
    assert_eq!(Root::sqrt(i64::MAX), 3_037_000_499);
    assert_eq!(Root::sqrt(26i64), 5);
    assert_eq!(Root::hypot(5i64, -12), 13);
    assert_eq!(Root::hypot(-8i64, 15), 17);
}

#[test]
fn floor_sqrt_at_the_edges() {
    assert_eq!(floor_sqrt_u128(0), 0);
    assert_eq!(floor_sqrt_u128(1), 1);
    assert_eq!(floor_sqrt_u128(2), 1);
    assert_eq!(floor_sqrt_u128(3), 1);
    assert_eq!(floor_sqrt_u128(4), 2);
    assert_eq!(floor_sqrt_u128(99), 9);
    assert_eq!(floor_sqrt_u128(100), 10);
    assert_eq!(floor_sqrt_u128(u128::MAX), u64::MAX as u128);
    let r: u128 = 0xFFFF_FFFF_FFFF_FFFF;
    assert_eq!(floor_sqrt_u128(r * r), r);
    assert_eq!(floor_sqrt_u128(r * r - 1), r - 1);
    assert_eq!(floor_sqrt_u128(1 << 126), 1 << 63);
}

#[test]
fn integer_vectors_render() {
    assert_eq!(Vector2::new(3i64, -4).to_string(), "vec(3,-4)");
    assert_eq!(Vector2::new(0u8, 255).to_string(), "vec(0,255)");
}

#[test]
fn geometry_at_the_edge_of_the_small_range() {
    assert_eq!(SMALL, 2_147_483_647);
    let v = Vector2::new(SMALL, -SMALL);
    assert_eq!(v.dot_product(&v), 9_223_372_028_264_841_218);
    assert_eq!(v.magnitude(), 3_037_000_498);
    assert!(v.unit() == Vector2(0, 0));
    let mut w = v;
    w.limit_magnitude(SMALL);
    assert!(w == Vector2(0, 0));
    let mut x = Vector2::new(SMALL, 0);
    x.limit_magnitude(SMALL);
    assert!(x == Vector2(SMALL, 0));
    assert!(x.unit() == Vector2(1, 0));
    let mut y = Vector2::new(-SMALL, 1);
    y.limit_magnitude(SMALL);
    assert!(y == Vector2(-SMALL, 1));
    y.limit_magnitude(SMALL - 1);
    assert!(y == Vector2(0, 0));
}
