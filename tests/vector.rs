use raytracer::vector::{Vec2D, Vec3D};

#[test]
fn vec3_new_holds_components() {
    let v = Vec3D::new(1i32, -2, 3);
    assert_eq!((v.x, v.y, v.z), (1, -2, 3));
}

#[test]
fn vec3_add_and_sub_componentwise() {
    let a = Vec3D::new(1i32, 2, 3);
    let b = Vec3D::new(10i32, 20, 30);
    assert_eq!(a + b, Vec3D::new(11, 22, 33));
    assert_eq!(b - a, Vec3D::new(9, 18, 27));
    assert_eq!(a + 5, Vec3D::new(6, 7, 8));
    assert_eq!(a - 1, Vec3D::new(0, 1, 2));
}

#[test]
fn vec3_scale_and_negate() {
    let a = Vec3D::new(2i64, -4, 6);
    assert_eq!(a * 3, Vec3D::new(6, -12, 18));
    assert_eq!(a / 2, Vec3D::new(1, -2, 3));
    assert_eq!(-a, Vec3D::new(-2, 4, -6));
}

#[test]
fn vec3_assign_operators() {
    let mut a = Vec3D::new(1u32, 2, 3);
    a += Vec3D::new(1, 1, 1);
    assert_eq!(a, Vec3D::new(2, 3, 4));
    a += 2;
    assert_eq!(a, Vec3D::new(4, 5, 6));
    a -= Vec3D::new(1, 2, 3);
    assert_eq!(a, Vec3D::new(3, 3, 3));
    a -= 1;
    assert_eq!(a, Vec3D::new(2, 2, 2));
    a *= 5;
    assert_eq!(a, Vec3D::new(10, 10, 10));
    a /= 4;
    assert_eq!(a, Vec3D::new(2, 2, 2));
}

#[test]
fn vec3_operators_on_floats() {
    let a = Vec3D::new(0.5f32, 1.0, -2.0);
    let b = a * 2.0 + Vec3D::new(1.0, 1.0, 1.0);
    assert_eq!(b, Vec3D::new(2.0, 3.0, -3.0));
    assert_eq!(-b / 2.0, Vec3D::new(-1.0, -1.5, 1.5));
}

#[test]
fn vec2_operators() {
    let a = Vec2D::new(3i32, 4);
    let b = Vec2D::new(1i32, -1);
    assert_eq!(a + b, Vec2D::new(4, 3));
    assert_eq!(a - b, Vec2D::new(2, 5));
    assert_eq!(a + 1, Vec2D::new(4, 5));
    assert_eq!(a - 1, Vec2D::new(2, 3));
    assert_eq!(a * 2, Vec2D::new(6, 8));
    assert_eq!(a / 2, Vec2D::new(1, 2));
    assert_eq!(-a, Vec2D::new(-3, -4));
}

#[test]
fn vec2_assign_operators() {
    let mut a = Vec2D::new(8u32, 6);
    a /= 2;
    assert_eq!(a, Vec2D::new(4, 3));
    a *= 3;
    assert_eq!(a, Vec2D::new(12, 9));
    a += Vec2D::new(1, 1);
    a += 1;
    assert_eq!(a, Vec2D::new(14, 11));
    a -= Vec2D::new(4, 1);
    a -= 10;
    assert_eq!(a, Vec2D::new(0, 0));
}
