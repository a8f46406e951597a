use shoot::geometry::{isqrt, isqrt_ceil, polygon_bounding_radius, CollisionShape, Vec2D};

#[test]
fn isqrt_rounds_down() {
    assert_eq!(isqrt(0), 0);
    assert_eq!(isqrt(1), 1);
    assert_eq!(isqrt(3), 1);
    assert_eq!(isqrt(4), 2);
    assert_eq!(isqrt(99), 9);
    assert_eq!(isqrt(100), 10);
    assert_eq!(isqrt(1_690_000), 1300);
    assert_eq!(isqrt(u64::MAX), u32::MAX);
}

#[test]
fn isqrt_ceil_rounds_up() {
    assert_eq!(isqrt_ceil(0), 0);
    assert_eq!(isqrt_ceil(1), 1);
    assert_eq!(isqrt_ceil(2), 2);
    assert_eq!(isqrt_ceil(4), 2);
    assert_eq!(isqrt_ceil(5), 3);
    assert_eq!(isqrt_ceil(u64::MAX), 1 << 32);
}

#[test]
fn distance_squared_is_exact_at_the_extremes() {
    let a = Vec2D::new(i32::MIN, i32::MIN);
    let b = Vec2D::new(i32::MAX, i32::MAX);
    let d = (u32::MAX as u128) * (u32::MAX as u128) * 2;
    assert_eq!(a.distance_squared(b), d);
    assert_eq!(b.distance_squared(a), d);
    assert_eq!(Vec2D::new(3, 4).distance_squared(Vec2D::zero()), 25);
    assert_eq!(Vec2D::new(3, -4).length_squared(), 25);
}

#[test]
fn bounding_radius_is_the_least_whole_radius() {
    assert_eq!(polygon_bounding_radius(&vec![]), 0);
    let square = vec![Vec2D::new(3, 4), Vec2D::new(-3, 4), Vec2D::new(-3, -4), Vec2D::new(3, -4)];
    assert_eq!(polygon_bounding_radius(&square), 5);
    let skew = vec![Vec2D::new(1, 1), Vec2D::new(10, 0), Vec2D::new(-7, 8)];
    assert_eq!(polygon_bounding_radius(&skew), 11);
}

#[test]
fn default_shape_is_a_ten_pixel_circle() {
    assert!(matches!(CollisionShape::default(), CollisionShape::Circle { radius: 10_000 }));
}
