use vecrect::{ArithError, Rect2, Vector2, Vector3, Vector4};

#[test]
fn test_try_add_overflow_is_first_failure() {
    let v = Vector2::<i8>::new(100, 0);
    assert_eq!(v.try_add(Vector2::new(100, 1)), Err(ArithError::Overflow));
    assert_eq!(v.try_add(Vector2::new(1, 2)), Ok(Vector2::new(101, 2)));
}

#[test]
fn test_try_sub_underflow() {
    let v = Vector2::<u8>::new(0, 5);
    assert_eq!(v.try_sub(Vector2::new(1, 1)), Err(ArithError::Overflow));
    assert_eq!(v.try_sub(Vector2::new(0, 5)), Ok(Vector2::new(0, 0)));
}

#[test]
fn test_try_mul_overflow() {
    let v = Vector3::<i8>::new(16, 2, 3);
    assert_eq!(v.try_mul(Vector3::new(8, 1, 1)), Err(ArithError::Overflow));
    assert_eq!(v.try_mul(Vector3::new(2, 2, 2)), Ok(Vector3::new(32, 4, 6)));
    assert_eq!(v.try_mul_scalar(4), Ok(Vector3::new(64, 8, 12)));
    assert_eq!(v.try_mul_scalar(8), Err(ArithError::Overflow));
}

#[test]
fn test_try_div_zero_divisor() {
    let v = Vector2::<i32>::new(10, 20);
    assert_eq!(v.try_div(Vector2::new(0, 5)), Err(ArithError::DivideByZero));
    assert_eq!(v.try_div(Vector2::new(5, 4)), Ok(Vector2::new(2, 5)));
    assert_eq!(v.try_div_scalar(0), Err(ArithError::DivideByZero));
    assert_eq!(v.try_div_scalar(10), Ok(Vector2::new(1, 2)));
}

#[test]
fn test_try_div_overflow_before_zero_comes_first() {
    // The x component overflows before the y component divides by zero:
    // the first failing component (in x, y order) determines the error.
    let v = Vector2::<i8>::new(i8::MIN, 1);
    assert_eq!(v.try_div(Vector2::new(-1, 0)), Err(ArithError::Overflow));
    // With the zero divisor on x, the zero-divisor error wins instead.
    let w = Vector2::<i8>::new(1, i8::MIN);
    assert_eq!(w.try_div(Vector2::new(0, -1)), Err(ArithError::DivideByZero));
}

#[test]
fn test_try_neg() {
    assert_eq!(Vector2::<i8>::new(5, -5).try_neg(), Ok(Vector2::new(-5, 5)));
    assert_eq!(Vector2::<i8>::new(i8::MIN, 0).try_neg(), Err(ArithError::Overflow));
    assert_eq!(Vector2::<u8>::new(0, 0).try_neg(), Ok(Vector2::new(0, 0)));
    assert_eq!(Vector2::<u8>::new(0, 1).try_neg(), Err(ArithError::Overflow));
}

#[test]
fn test_try_scalar_broadcast() {
    let v = Vector2::<u8>::new(250, 2);
    assert_eq!(v.try_add_scalar(10), Err(ArithError::Overflow));
    assert_eq!(v.try_add_scalar(5), Ok(Vector2::new(255, 7)));
    assert_eq!(v.try_sub_scalar(3), Err(ArithError::Overflow));
    assert_eq!(Vector2::<u8>::new(250, 200).try_sub_scalar(100), Ok(Vector2::new(150, 100)));
}

#[test]
fn test_saturating_ops_at_bounds() {
    let v = Vector2::<i8>::new(120, -120);
    assert_eq!(v.saturating_add(Vector2::new(20, -20)), Vector2::new(127, -128));
    assert_eq!(v.saturating_sub(Vector2::new(-20, 20)), Vector2::new(127, -128));
    assert_eq!(v.saturating_mul(Vector2::new(2, 3)), Vector2::new(127, -128));
    assert_eq!(v.saturating_mul_scalar(-2), Vector2::new(-128, 127));
    assert_eq!(Vector2::<i8>::new(i8::MIN, 5).saturating_neg(), Vector2::new(127, -5));
    assert_eq!(Vector2::<u8>::new(3, 200).saturating_neg(), Vector2::new(0, 0));
}

#[test]
fn test_wrapping_ops_at_bounds() {
    let v = Vector2::<u8>::new(255, 3);
    assert_eq!(v.wrapping_add(Vector2::new(1, 1)), Vector2::new(0, 4));
    assert_eq!(Vector2::<u8>::new(0, 5).wrapping_sub(Vector2::new(1, 2)), Vector2::new(255, 3));
    assert_eq!(Vector2::<u8>::new(16, 2).wrapping_mul(Vector2::new(16, 3)), Vector2::new(0, 6));
    assert_eq!(Vector2::<u8>::new(16, 2).wrapping_mul_scalar(17), Vector2::new(16, 34));
    assert_eq!(Vector2::<i8>::new(i8::MIN, 1).wrapping_neg(), Vector2::new(i8::MIN, -1));
    assert_eq!(Vector2::<i8>::new(i8::MAX, 0).wrapping_add(Vector2::new(1, 0)), Vector2::new(i8::MIN, 0));
}

#[test]
fn test_saturating_wrapping_agree_in_range() {
    // On values whose exact results are representable, the saturating and
    // wrapping operations both equal the unchecked operation.
    let a = Vector2::<i8>::new(30, -40);
    let b = Vector2::<i8>::new(7, 25);
    assert_eq!(a.saturating_add(b), a.add(b));
    assert_eq!(a.wrapping_add(b), a.add(b));
    assert_eq!(a.saturating_sub(b), a.sub(b));
    assert_eq!(a.wrapping_sub(b), a.sub(b));
    assert_eq!(a.saturating_mul(Vector2::new(3, 2)), a.mul(Vector2::new(3, 2)));
    assert_eq!(a.wrapping_mul(Vector2::new(3, 2)), a.mul(Vector2::new(3, 2)));
    assert_eq!(a.saturating_neg(), a.neg());
    assert_eq!(a.wrapping_neg(), a.neg());
}

#[test]
fn test_rect_checked_ops() {
    let r = Rect2::<i8>::new(100, 0, 120, 5);
    assert_eq!(r.try_add(Vector2::new(10, 1)), Err(ArithError::Overflow));
    assert_eq!(r.try_add(Vector2::new(5, 1)), Ok(Rect2::new(105, 1, 125, 6)));
    assert_eq!(r.try_div_scalar(0), Err(ArithError::DivideByZero));
    assert_eq!(r.try_div_scalar(5), Ok(Rect2::new(20, 0, 24, 1)));
    assert_eq!(r.try_neg(), Ok(Rect2::new(-100, 0, -120, -5)));
    assert_eq!(Rect2::<i8>::new(i8::MIN, 0, 0, 0).try_neg(), Err(ArithError::Overflow));
}

#[test]
fn test_rect_saturating_wrapping_ops() {
    let r = Rect2::<u8>::new(250, 0, 255, 5);
    assert_eq!(r.saturating_add(Vector2::new(10, 2)), Rect2::new(255, 2, 255, 7));
    assert_eq!(r.wrapping_add(Vector2::new(10, 2)), Rect2::new(4, 2, 9, 7));
    assert_eq!(r.saturating_sub(Vector2::new(251, 0)), Rect2::new(0, 0, 4, 5));
    assert_eq!(r.wrapping_sub(Vector2::new(251, 0)), Rect2::new(255, 0, 4, 5));
    assert_eq!(
        Rect2::<i8>::new(100, -100, 2, 3).saturating_mul_scalar(2),
        Rect2::new(127, -128, 4, 6)
    );
    assert_eq!(
        Rect2::<i8>::new(i8::MIN, 1, 2, 3).saturating_neg(),
        Rect2::new(127, -1, -2, -3)
    );
    assert_eq!(
        Rect2::<i8>::new(i8::MIN, 1, 2, 3).wrapping_neg(),
        Rect2::new(i8::MIN, -1, -2, -3)
    );
}

#[test]
fn test_vector4_checked_and_wrapping() {
    let v = Vector4::<i16>::new(30000, -30000, 100, -100);
    assert_eq!(v.try_add(Vector4::new(3000, 0, 1, 1)), Err(ArithError::Overflow));
    assert_eq!(
        v.try_add(Vector4::new(767, -768, 1, 1)),
        Ok(Vector4::new(30767, -30768, 101, -99))
    );
    assert_eq!(
        v.saturating_add(Vector4::new(3000, -3000, 1, 1)),
        Vector4::new(32767, -32768, 101, -99)
    );
    assert_eq!(
        v.wrapping_add(Vector4::new(3000, -3000, 1, 1)),
        Vector4::new(-32536, 32536, 101, -99)
    );
}
