use ember_math::Matrix3f;
use ember_math::Vector3f;

fn matrix_seq() -> Matrix3f {
    Matrix3f::new(1, 2, 3, 4, 5, 6, 7, 8, 9)
}

#[test]
fn test_create_matrix3f() {
    let a = Matrix3f::new(1, 2, 3, 4, 5, 6, 7, 8, 9);
    for i in 0..8usize {
        assert_eq!(a.data(i), i as i64 + 1);
    }
}

#[test]
fn test_matrix3f_one() {
    let a = Matrix3f::one();
    for i in 0..8usize {
        assert_eq!(a.data(i), 1);
    }
}

#[test]
fn test_matrix3f_zero() {
    let a = Matrix3f::zero();
    for i in 0..8usize {
        assert_eq!(a.data(i), 0);
    }
}

#[test]
fn test_matrix3_identity() {
    let a = Matrix3f::identity();
    assert_eq!(a.data(0), 1);
    assert_eq!(a.data(1), 0);
    assert_eq!(a.data(2), 0);

    assert_eq!(a.data(3), 0);
    assert_eq!(a.data(4), 1);
    assert_eq!(a.data(5), 0);

    assert_eq!(a.data(6), 0);
    assert_eq!(a.data(7), 0);
    assert_eq!(a.data(8), 1);
}

#[test]
fn test_matrix3f_scale() {
    let a = matrix_seq();
    let b = a.scale(2);
    for i in 0..8usize {
        assert_eq!(b.data(i), (i as i64 + 1) * 2);
    }
}

#[test]
fn test_matrix3f_transpose() {
    let mut a = matrix_seq();
    a = a.transpose();
    assert_eq!(a.data(0), 1);
    assert_eq!(a.data(1), 4);
    assert_eq!(a.data(2), 7);

    assert_eq!(a.data(3), 2);
    assert_eq!(a.data(4), 5);
    assert_eq!(a.data(5), 8);

    assert_eq!(a.data(6), 3);
    assert_eq!(a.data(7), 6);
    assert_eq!(a.data(8), 9);
}

#[test]
fn test_determinant() {
    let a = matrix_seq();
    assert_eq!(a.determinant(), 0);

    let b = Matrix3f::new(1, 4, 3, -4, 0, 2, -7, -8, -9);
    assert_eq!(b.determinant(), -88);
}

#[test]
fn test_transform() {
    let m1 = Matrix3f::identity();
    let v1 = Vector3f::new(1, 2, 3);
    let mv1 = m1.transform(v1);
    assert_eq!(mv1.x, 1);
    assert_eq!(mv1.y, 2);
    assert_eq!(mv1.z, 3);

    let m2 = Matrix3f::new(-100, 200, 450, 143, 100, 9320, 0, 110, 50);
    let v2 = Vector3f::new(-20, 104, 1220);
    let mv2 = m2.transform(v2);

    assert_eq!(mv2.x, 571800);
    assert_eq!(mv2.y, 11377940);
    assert_eq!(mv2.z, 72440);
}

#[test]
fn test_cofactor() {
    let m1 = matrix_seq();
    let m1c = m1.cofactor();
    assert_eq!(m1c.data(0), -3);
    assert_eq!(m1c.data(1), 6);
    assert_eq!(m1c.data(2), -3);

    assert_eq!(m1c.data(3), 6);
    assert_eq!(m1c.data(4), -12);
    assert_eq!(m1c.data(5), 6);

    assert_eq!(m1c.data(6), -3);
    assert_eq!(m1c.data(7), 6);
    assert_eq!(m1c.data(8), -3);
}

#[test]
fn test_adjugate() {
    let m1 = matrix_seq();
    let adjugate = m1.adjugate();

    let result = Matrix3f::new(-3, 6, -3, 6, -12, 6, -3, 6, -3);

    assert_eq!(adjugate, result);
}

#[test]
fn test_multiplication() {
    let m1 = Matrix3f::new(100, -200, 351, 400, 500, 600, 200, 300, 500);
    let m2 = Matrix3f::new(3, 2, 4, 3, 3, 9, 4, 4, 2);
    let m12 = m1.mul(m2);

    let r12 = Matrix3f::new(1104, 1004, -698, 5100, 4700, 7300, 3500, 3300, 4500);
    assert_eq!(m12, r12);
}

#[test]
fn matrix3f_tests_test_add() {
    let m1 = Matrix3f::new(110, 220, -100, 0, 100, 0, 200, 100, -100);
    let m2 = Matrix3f::new(-1, 100, -30, 100, 100, 100, 120, 330, 4300);
    let r = Matrix3f::new(109, 320, -130, 100, 200, 100, 320, 430, 4200);
    assert_eq!(m1.add(m2), r);
}

#[test]
fn matrix3f_tests_test_sub() {
    assert!(true);
}

#[test]
fn matrix3f_tests_test_equality() {
    let m1 = matrix_seq();
    let m2 = Matrix3f::new(1, 2, 3, 4, 5, 6, 7, 8, 9);
    assert_eq!(m1, m2);
}
