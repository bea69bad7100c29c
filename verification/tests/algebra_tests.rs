use ember_math::Matrix3f;
use ember_math::Matrix4f;
use ember_math::Vector2f;
use ember_math::Vector3f;
use ember_math::Vector4f;

#[test]
fn test_matrix3f_transpose_involution() {
    let a = Matrix3f::new(1, -2, 3, 40, 5, -6, 7, 8, 900);
    assert_eq!(a.transpose().transpose(), a);
}

#[test]
fn test_matrix4f_transpose_involution() {
    let a = Matrix4f::new(1, 2, 3, 4, -5, 6, -7, 8, 9, 10, 11, 12, 13, -14, 15, 16);
    assert_eq!(a.transpose().transpose(), a);
}

#[test]
fn test_matrix4f_transpose() {
    let a = Matrix4f::new(1, 2, 3, 4, 5, 6, 7, 8, 9, 10, 11, 12, 13, 14, 15, 16);
    let t = a.transpose();
    assert_eq!(t.data(0), 1);
    assert_eq!(t.data(1), 5);
    assert_eq!(t.data(4), 2);
    assert_eq!(t.data(7), 14);
    assert_eq!(t.data(11), 15);
    assert_eq!(t.data(13), 8);
    assert_eq!(t.data(15), 16);
}

#[test]
fn test_mul_adjugate_gives_scaled_identity() {
    // det = 1: the product with the adjugate is exactly the identity.
    let a = Matrix3f::new(0, -3, -2, 1, -4, -2, -3, 4, 1);
    let a_adj = a.adjugate();
    assert_eq!(a.determinant(), 1);
    assert_eq!(a.mul(a_adj), Matrix3f::identity());

    // det = -88: the product is the identity scaled by -88.
    let b = Matrix3f::new(1, 4, 3, -4, 0, 2, -7, -8, -9);
    let b_adj = b.adjugate();
    assert_eq!(b.mul(b_adj), Matrix3f::identity().scale(-88));

    // det = 0: the product is the zero matrix.
    let c = Matrix3f::new(1, 2, 3, 4, 5, 6, 7, 8, 9);
    let c_adj = c.adjugate();
    assert_eq!(c.mul(c_adj), Matrix3f::zero());
}

#[test]
fn test_invertible_one_sided() {
    let a = Matrix3f::new(0, -3, -2, 1, -4, -2, -3, 4, 1);
    assert!(a.invertible());
    let singular = Matrix3f::new(1, 2, 3, 4, 5, 6, 7, 8, 9);
    assert!(!singular.invertible());
    // A negative determinant is reported as not invertible.
    let negative = Matrix3f::new(1, 4, 3, -4, 0, 2, -7, -8, -9);
    assert_eq!(negative.determinant(), -88);
    assert!(!negative.invertible());
}

#[test]
fn test_magnitude_rounds_toward_zero() {
    assert_eq!(Vector3f::zero().magnitude(), 0);
    assert_eq!(Vector3f::new(3, 4, 0).magnitude(), 5);
    assert_eq!(Vector3f::new(2, 2, 1).magnitude(), 3);
    assert_eq!(Vector3f::new(2, 2, 2).magnitude(), 3);
    assert_eq!(Vector3f::new(1_000_000_000, 0, 0).magnitude(), 1_000_000_000);
    assert_eq!(Vector2f::new(-5, 12).magnitude(), 13);
    assert_eq!(Vector4f::new(1, 3, 5, 6).magnitude(), 8);
}

#[test]
fn test_vector_scale() {
    assert_eq!(Vector2f::new(2, -3).scale(4), Vector2f::new(8, -12));
    assert_eq!(Vector3f::new(1, 0, -2).scale(-3), Vector3f::new(-3, 0, 6));
    assert_eq!(Vector4f::new(1, 2, 3, 4).scale(2), Vector4f::new(2, 4, 6, 8));
}

#[test]
fn test_vector_assign_ops() {
    let mut a = Vector2f::new(1, 2);
    a.add_assign(Vector2f::new(10, 20));
    assert_eq!(a, Vector2f::new(11, 22));
    a.sub_assign(Vector2f::new(1, 2));
    assert_eq!(a, Vector2f::new(10, 20));

    let mut b = Vector3f::new(1, 2, 3);
    b.add_assign(Vector3f::new(-1, -2, -3));
    assert_eq!(b, Vector3f::zero());
    b.sub_assign(Vector3f::one());
    assert_eq!(b, Vector3f::new(-1, -1, -1));

    let mut c = Vector4f::new(1, 2, 3, 4);
    c.add_assign(Vector4f::one());
    assert_eq!(c, Vector4f::new(2, 3, 4, 5));
    c.sub_assign(Vector4f::new(2, 3, 4, 5));
    assert_eq!(c, Vector4f::zero());
}

#[test]
fn test_vector4f_sub() {
    let a = Vector4f::new(5, 5, 5, 5);
    let b = Vector4f::new(1, 2, 3, 4);
    assert_eq!(a.sub(b), Vector4f::new(4, 3, 2, 1));
    assert_eq!(a.add(b), Vector4f::new(6, 7, 8, 9));
}

#[test]
fn test_extend_truncate_round_trip() {
    let v = Vector3f::new(4, -5, 6);
    let e = v.extend(1);
    assert_eq!(e, Vector4f::new(4, -5, 6, 1));
    assert_eq!(e.truncate(), v);
}

#[test]
fn test_array_conversions() {
    assert_eq!(Vector2f::new(1, 2).to_array(), [1, 2]);
    assert_eq!(Vector3f::new(1, 2, 3).to_array(), [1, 2, 3]);
    assert_eq!(Vector4f::new(1, 2, 3, 4).to_array(), [1, 2, 3, 4]);
    let m3 = Matrix3f::new(1, 2, 3, 4, 5, 6, 7, 8, 9);
    assert_eq!(m3.to_rows(), [[1, 2, 3], [4, 5, 6], [7, 8, 9]]);
    let m4 = Matrix4f::from_translation(Vector3f::new(7, 8, 9));
    assert_eq!(
        m4.to_rows(),
        [[1, 0, 0, 7], [0, 1, 0, 8], [0, 0, 1, 9], [0, 0, 0, 1]]
    );
}

#[test]
fn test_defaults() {
    assert_eq!(Matrix3f::default(), Matrix3f::identity());
    assert_eq!(Matrix4f::default(), Matrix4f::identity());
    assert_eq!(Vector4f::default(), Vector4f::zero());
}

#[test]
fn test_matrix3f_assign_ops() {
    let mut a = Matrix3f::new(1, 2, 3, 4, 5, 6, 7, 8, 9);
    a.add_assign(Matrix3f::one());
    assert_eq!(a, Matrix3f::new(2, 3, 4, 5, 6, 7, 8, 9, 10));
    a.sub_assign(Matrix3f::one());
    assert_eq!(a, Matrix3f::new(1, 2, 3, 4, 5, 6, 7, 8, 9));
    a.mul_assign(Matrix3f::identity().scale(2));
    assert_eq!(a, Matrix3f::new(2, 4, 6, 8, 10, 12, 14, 16, 18));
}

#[test]
fn test_matrix4f_one() {
    let m = Matrix4f::one();
    for i in 0..16usize {
        assert_eq!(m.data(i), 1);
    }
}

#[test]
fn test_matrix4f_scale() {
    let m = Matrix4f::one().scale(7);
    for i in 0..16usize {
        assert_eq!(m.data(i), 7);
    }
}

#[test]
fn test_matrix4f_from_translation() {
    let t = Matrix4f::from_translation(Vector3f::new(10, 20, 30));
    assert_eq!(t.data(3), 10);
    assert_eq!(t.data(7), 20);
    assert_eq!(t.data(11), 30);
    assert_eq!(t.data(0), 1);
    assert_eq!(t.data(5), 1);
    assert_eq!(t.data(10), 1);
    assert_eq!(t.data(15), 1);
    assert_eq!(t.data(12), 0);
}

#[test]
fn test_matrix4f_from_scale() {
    let s = Matrix4f::from_scale(3);
    assert_eq!(s.data(0), 3);
    assert_eq!(s.data(5), 3);
    assert_eq!(s.data(10), 3);
    assert_eq!(s.data(15), 1);
    assert_eq!(s.data(1), 0);

    let v = Matrix4f::from_scale_vec(Vector3f::new(2, 3, 4));
    assert_eq!(v.data(0), 2);
    assert_eq!(v.data(5), 3);
    assert_eq!(v.data(10), 4);
    assert_eq!(v.data(15), 1);
    assert_eq!(v.data(6), 0);
}

#[test]
fn test_matrix4f_mul_composes_translations() {
    // The last column of a product combines the translations of both factors.
    let a = Matrix4f::from_translation(Vector3f::new(1, 2, 3));
    let b = Matrix4f::from_translation(Vector3f::new(10, 20, 30));
    let ab = a.mul(b);
    assert_eq!(ab, Matrix4f::from_translation(Vector3f::new(11, 22, 33)));
}

#[test]
fn test_matrix4f_mul() {
    let a = Matrix4f::from_scale(2);
    let b = Matrix4f::new(1, 2, 3, 4, 5, 6, 7, 8, 9, 10, 11, 12, 13, 14, 15, 16);
    let ab = a.mul(b);
    assert_eq!(ab.data(0), 2);
    assert_eq!(ab.data(5), 12);
    assert_eq!(ab.data(11), 24);
    // Row 3 is kept as is: the uniform scale has a unit last entry.
    assert_eq!(ab.data(12), 13);
    assert_eq!(ab.data(15), 16);
}

#[test]
fn test_matrix4f_transform() {
    let v = Vector4f::new(1, 2, 3, 4);
    assert_eq!(Matrix4f::identity().transform(v), v);

    let t = Matrix4f::from_translation(Vector3f::new(5, 6, 7));
    let p = Vector4f::new(1, 2, 3, 1);
    assert_eq!(t.transform(p), Vector4f::new(6, 8, 10, 1));
}

#[test]
fn test_matrix4f_add_sub() {
    let a = Matrix4f::one();
    let b = Matrix4f::identity();
    let s = a.add(b);
    assert_eq!(s.data(0), 2);
    assert_eq!(s.data(1), 1);
    assert_eq!(s.data(5), 2);
    let d = s.sub(Matrix4f::one());
    assert_eq!(d, Matrix4f::identity());

    let mut m = Matrix4f::one();
    m.add_assign(Matrix4f::one());
    assert_eq!(m, Matrix4f::one().scale(2));
    m.sub_assign(Matrix4f::one());
    assert_eq!(m, Matrix4f::one());
    m.mul_assign(Matrix4f::from_scale(1));
    assert_eq!(m.data(0), 1);
    assert_eq!(m.data(3), 1);
    assert_eq!(m.data(15), 1);
}
