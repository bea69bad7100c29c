use ember_math::Vector3f;

#[test]
fn test_create_vector3f() {
    let a = Vector3f::new(1, 1, 1);
    assert_eq!(a.x, 1);
    assert_eq!(a.y, 1);
    assert_eq!(a.z, 1);
}

#[test]
fn vector3f_tests_test_equality() {
    let a = Vector3f::new(-1, 1, 3);
    let b = Vector3f::new(-1, 1, 3);
    assert_eq!(a, b);
}

#[test]
fn test_magnitude() {
    let a = Vector3f::new(1, 0, 0);
    let b = Vector3f::new(1, 1, 1);
    assert_eq!(b.magnitude(), 1);
    assert_eq!(1, a.magnitude());
}

#[test]
fn test_magnitude_squared() {
    let a = Vector3f::new(3, 4, 1);
    let b = Vector3f::new(-1, -2, 2);
    let c = Vector3f::new(0, 0, 0);
    assert_eq!(26, a.magnitude_squared());
    assert_eq!(9, b.magnitude_squared());
    assert_eq!(0, c.magnitude_squared());
}

#[test]
fn test_one() {
    let a = Vector3f::new(1, 1, 1);
    assert_eq!(a, Vector3f::one());
}

#[test]
fn test_zero() {
    let a = Vector3f::new(0, 0, 0);
    assert_eq!(Vector3f::zero(), a);
}

#[test]
fn test_dot() {
    let a = Vector3f::new(1, 0, 0);
    let b = Vector3f::new(0, 1, 0);
    let ab = a.dot(b);

    let c = Vector3f::new(1, 0, 0);
    let d = Vector3f::new(1, 0, 0);
    let cd = c.dot(d);

    let e = Vector3f::new(1, 2, -2);
    let f = Vector3f::new(3, 4, 1);
    let ef = e.dot(f);

    assert_eq!(ab, 0);
    assert_eq!(cd, 1);
    assert_eq!(ef, 9);
}

#[test]
fn test_cross() {
    let a = Vector3f::new(2, 3, 4);
    let b = Vector3f::new(5, 6, 7);
    let r = Vector3f::new(-3, 6, -3);
    assert_eq!(a.cross(b), r);
}

#[test]
fn vector3f_tests_test_add() {
    let a = Vector3f::new(100, -100, 100);
    let b = Vector3f::new(1, 1, 1);
    let c = a.add(b);
    assert_eq!(c.x, 101);
    assert_eq!(c.y, -99);
    assert_eq!(c.z, 101);
}

#[test]
fn vector3f_tests_test_sub() {
    let a = Vector3f::one().scale(10);
    let b = Vector3f::new(5, -5, 1);
    let c = a.sub(b);
    assert_eq!(c.x, 5);
    assert_eq!(c.y, 15);
    assert_eq!(c.z, 9);
}
