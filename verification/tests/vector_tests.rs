use vecrect::{vec2, vec3, vec4, ConvertError, Vector2, Vector3, Vector4};

#[test]
fn test_constructors_agree() {
    assert_eq!(vec2(1, 2), Vector2::new(1, 2));
    assert_eq!(vec3(1, 2, 3), Vector3::new(1, 2, 3));
    assert_eq!(vec4(1, 2, 3, 4), Vector4::new(1, 2, 3, 4));
}

#[test]
fn test_array_round_trip() {
    let v2 = Vector2::new(1, 2);
    assert_eq!(Vector2::from_array(v2.into_array()), v2);
    let v3 = Vector3::new(1, 2, 3);
    assert_eq!(Vector3::from_array(v3.into_array()), v3);
    let v4 = Vector4::new(1, 2, 3, 4);
    assert_eq!(Vector4::from_array(v4.into_array()), v4);
    assert_eq!(v4.into_array(), [1, 2, 3, 4]);
}

#[test]
fn test_tuple_round_trip() {
    let v2 = Vector2::new(1, 2);
    assert_eq!(Vector2::from_tuple(v2.into_tuple()), v2);
    let v3 = Vector3::new(1, 2, 3);
    assert_eq!(Vector3::from_tuple(v3.into_tuple()), v3);
    let v4 = Vector4::new(1, 2, 3, 4);
    assert_eq!(Vector4::from_tuple(v4.into_tuple()), v4);
    assert_eq!(v3.into_tuple(), (1, 2, 3));
}

#[test]
fn test_sum_matches_field_expansion() {
    assert_eq!(Vector2::new(1, 2).sum(), 1 + 2);
    assert_eq!(Vector3::new(1, 2, 3).sum(), 1 + 2 + 3);
    assert_eq!(Vector4::new(1, 2, 3, 4).sum(), 1 + 2 + 3 + 4);
    assert_eq!(Vector3::new(-5, 2, 3).sum(), 0);
}

#[test]
fn test_product_matches_field_expansion() {
    assert_eq!(Vector2::new(3, 4).product(), 3 * 4);
    assert_eq!(Vector3::new(2, 3, 4).product(), 2 * 3 * 4);
    assert_eq!(Vector4::new(2, 3, 4, 5).product(), 2 * 3 * 4 * 5);
    assert_eq!(Vector3::new(-2, 3, 4).product(), -24);
}

#[test]
fn test_convert_widening() {
    let v = Vector2::<u8>::new(200, 255);
    let w: Vector2<i32> = v.convert();
    assert_eq!(w, Vector2::new(200, 255));
    let r: Vector2<i64> = w.ref_convert();
    assert_eq!(r, Vector2::new(200, 255));
}

#[test]
fn test_try_convert_reports_unrepresentable() {
    let v = Vector2::<i32>::new(300, 5);
    assert_eq!(v.try_convert::<u8>(), Err(ConvertError));
    let w = Vector2::<i32>::new(5, -1);
    assert_eq!(w.try_convert::<u8>(), Err(ConvertError));
    assert_eq!(w.try_ref_convert::<u8>(), Err(ConvertError));
    let ok = Vector3::<i32>::new(1, 2, 3).try_convert::<u8>();
    assert_eq!(ok, Ok(Vector3::new(1u8, 2, 3)));
    let back = Vector3::<u8>::new(1, 2, 3).try_convert::<i32>();
    assert_eq!(back, Ok(Vector3::new(1, 2, 3)));
}

#[test]
fn test_vector_add_sub() {
    assert_eq!(Vector2::new(1, 2).add(Vector2::new(10, 20)), Vector2::new(11, 22));
    assert_eq!(Vector3::new(1, 2, 3).sub(Vector3::new(3, 2, 1)), Vector3::new(-2, 0, 2));
    assert_eq!(
        Vector4::new(1, 2, 3, 4).add(Vector4::new(4, 3, 2, 1)),
        Vector4::new(5, 5, 5, 5)
    );
}

#[test]
fn test_vector_mul_div() {
    assert_eq!(Vector2::new(3, 4).mul(Vector2::new(5, 6)), Vector2::new(15, 24));
    assert_eq!(Vector2::new(7, -7).div(Vector2::new(2, 2)), Vector2::new(3, -3));
    assert_eq!(Vector3::new(10, 20, 30).div(Vector3::new(3, 7, 4)), Vector3::new(3, 2, 7));
}

#[test]
fn test_vector_scalar_broadcast() {
    assert_eq!(Vector2::new(1, 2).add_scalar(10), Vector2::new(11, 12));
    assert_eq!(Vector2::new(1, 2).sub_scalar(1), Vector2::new(0, 1));
    assert_eq!(Vector3::new(1, 2, 3).mul_scalar(4), Vector3::new(4, 8, 12));
    assert_eq!(Vector3::new(10, 21, 32).div_scalar(10), Vector3::new(1, 2, 3));
    assert_eq!(Vector4::new(1, 2, 3, 4).mul_scalar(-1), Vector4::new(-1, -2, -3, -4));
}

#[test]
fn test_vector_neg() {
    assert_eq!(Vector2::new(1, -2).neg(), Vector2::new(-1, 2));
    assert_eq!(Vector4::new(1, -2, 3, -4).neg(), Vector4::new(-1, 2, -3, 4));
}

#[test]
fn test_vector_assign_ops() {
    let mut v = Vector2::new(1, 2);
    v.add_assign(Vector2::new(10, 20));
    assert_eq!(v, Vector2::new(11, 22));
    v.sub_assign(Vector2::new(1, 2));
    assert_eq!(v, Vector2::new(10, 20));
    v.mul_assign(Vector2::new(2, 3));
    assert_eq!(v, Vector2::new(20, 60));
    v.div_assign(Vector2::new(6, 7));
    assert_eq!(v, Vector2::new(3, 8));
    v.add_assign_scalar(2);
    assert_eq!(v, Vector2::new(5, 10));
    v.sub_assign_scalar(1);
    assert_eq!(v, Vector2::new(4, 9));
    v.mul_assign_scalar(3);
    assert_eq!(v, Vector2::new(12, 27));
    v.div_assign_scalar(4);
    assert_eq!(v, Vector2::new(3, 6));
}

#[test]
fn test_truncating_division_on_negatives() {
    // Scalar division truncates toward zero, as the primitive types do.
    assert_eq!(Vector2::new(-7, 7).div_scalar(2), Vector2::new(-3, 3));
    assert_eq!(Vector2::new(7, -7).div_scalar(-2), Vector2::new(-3, 3));
}
