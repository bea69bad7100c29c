use ember_math::Vector2f;

#[test]
fn test_create_vector2f() {
    let a = Vector2f::new(1, 1);
    assert_eq!(a.x, 1);
    assert_eq!(a.y, 1);
}

#[test]
fn test_vector2f_equality() {
    let a = Vector2f::new(-1, 1);
    let b = Vector2f::new(-1, 1);
    assert_eq!(a, b);
}

#[test]
fn test_vector2f_magnitude() {
    let a = Vector2f::new(1, 0);
    let b = Vector2f::new(1, 1);
    assert_eq!(b.magnitude(), 1);
    assert_eq!(1, a.magnitude());
}

#[test]
fn test_vector2f_magnitude_squared() {
    let a = Vector2f::new(3, 4);
    let b = Vector2f::new(-1, -2);
    let c = Vector2f::new(0, 0);
    assert_eq!(25, a.magnitude_squared());
    assert_eq!(5, b.magnitude_squared());
    assert_eq!(0, c.magnitude_squared());
}

#[test]
fn test_vector2f_one() {
    let a = Vector2f::new(1, 1);
    assert_eq!(a, Vector2f::one());
}

#[test]
fn test_vector2f_zero() {
    let a = Vector2f::new(0, 0);
    assert_eq!(Vector2f::zero(), a);
}

#[test]
fn test_vector2f_dot() {
    let a = Vector2f::new(1, 0);
    let b = Vector2f::new(0, 1);
    let ab = a.dot(b);

    let c = Vector2f::new(1, 0);
    let d = Vector2f::new(1, 0);
    let cd = c.dot(d);

    let e = Vector2f::new(1, 2);
    let f = Vector2f::new(3, 4);
    let ef = e.dot(f);

    assert_eq!(ab, 0);
    assert_eq!(cd, 1);
    assert_eq!(ef, 11);
}

#[test]
fn vector2f_tests_test_add() {
    let a = Vector2f::new(1, -1);
    let b = Vector2f::new(-1, 1);
    assert_eq!(a.add(b), Vector2f::new(0, 0));
}
