use vecrect::{Rect2, Rect3, Vector2, Vector3};

#[test]
fn test_rect_intersection() {
    assert_eq!(
        Rect2::new(0, 1, 80, 81).intersect(Rect2::new(20, 21, 100, 101)),
        Some(Rect2::new(20, 21, 80, 81))
    );
    assert_eq!(
        Rect2::new(1, 0, 101, 100).intersect(Rect2::new(21, 20, 81, 80)),
        Some(Rect2::new(21, 20, 81, 80))
    );
    assert_eq!(Rect2::new(0, 0, 10, 10).intersect(Rect2::new(10, 0, 20, 10)), None);
    assert_eq!(Rect2::new(0, 0, 100, 100).intersect(Rect2::new(50, 50, 50, 50)), None);
    assert_eq!(Rect2::new(0, 0, 100, 100).intersect(Rect2::new(80, 80, 20, 20)), None);
    assert_eq!(Rect2::new(0, 0, 10, 10).intersect(Rect2::new(20, 0, 30, 10)), None);
}

#[test]
fn test_rect_ordering() {
    assert!(Rect2::new(0, 1, 2, 3).is_ordered());
    assert!(Rect2::new(0, 1, 0, 3).is_ordered());
    assert!(!Rect2::new(2, 1, 0, 3).is_ordered());
    assert!(Rect2::new(0, 1, 2, 3).is_positive());
    assert!(!Rect2::new(0, 1, 0, 3).is_positive());
    assert!(!Rect2::new(2, 1, 0, 3).is_positive());
    assert_eq!(Rect2::new(0, 1, 2, 3).ordered(), Rect2::new(0, 1, 2, 3));
    assert_eq!(Rect2::new(2, 1, 0, 3).ordered(), Rect2::new(0, 1, 2, 3));
}

#[test]
fn test_rect_intersection_touching_is_none() {
    assert_eq!(
        Rect2::new(0, 0, 100, 100).intersect(Rect2::new(100, 0, 200, 100)),
        None
    );
}

#[test]
fn test_rect_partially_ordered_matches_ordered() {
    assert_eq!(Rect2::new(2, 1, 0, 3).partially_ordered(), Rect2::new(0, 1, 2, 3));
    assert!(Rect2::new(0, 1, 0, 3).is_partially_ordered());
    assert!(!Rect2::new(0, 1, 0, 3).is_partially_positive());
}

#[test]
fn test_rect3_ordering_per_axis() {
    let r = Rect3::new(5, 1, 9, 0, 3, 2).ordered();
    assert_eq!(r, Rect3::new(0, 1, 2, 5, 3, 9));
    assert!(r.is_ordered());
}

#[test]
fn test_rect_expand() {
    let a = Rect2::new(0, 0, 10, 10);
    let b = Rect2::new(5, -5, 20, 8);
    assert_eq!(a.expand(b), Rect2::new(0, -5, 20, 10));
    // A non-positive operand leaves the left operand unchanged, silently.
    let degenerate = Rect2::new(5, 5, 5, 20);
    assert_eq!(a.expand(degenerate), a);
    assert_eq!(degenerate.expand(a), degenerate);
}

#[test]
fn test_rect_expand_self_is_identity() {
    let r = Rect2::new(-3, 4, 7, 9);
    assert!(r.is_positive());
    assert_eq!(r.expand(r), r);
    let b = Rect3::new(0, 1, 2, 4, 5, 6);
    assert_eq!(b.expand(b), b);
}

#[test]
fn test_rect_dimensions() {
    let r = Rect2::new(2, 3, 10, 30);
    assert_eq!(r.width(), 8);
    assert_eq!(r.height(), 27);
    assert_eq!(r.size(), Vector2::new(8, 27));
    let b = Rect3::new(1, 2, 3, 9, 8, 7);
    assert_eq!(b.width(), 8);
    assert_eq!(b.height(), 6);
    assert_eq!(b.depth(), 4);
    assert_eq!(b.size(), Vector3::new(8, 6, 4));
}

#[test]
fn test_rect_constructors() {
    let r = Rect2::from_tuple((1, 2, 3, 4));
    assert_eq!(r, Rect2::new(1, 2, 3, 4));
    let s = Rect2::from_size(Vector2::new(7, 9));
    assert_eq!(s, Rect2::new(0, 0, 7, 9));
    let t = Rect2::from_size_tuple((7, 9));
    assert_eq!(t, Rect2::new(0, 0, 7, 9));
    let b = Rect3::from_size(Vector3::new(1, 2, 3));
    assert_eq!(b, Rect3::new(0, 0, 0, 1, 2, 3));
}

#[test]
fn test_rect_convert() {
    let r = Rect2::<i32>::new(1, 2, 3, 4);
    let c: Rect2<u8> = r.convert();
    assert_eq!(c, Rect2::new(1u8, 2, 3, 4));
    let back: Rect2<i32> = c.ref_convert();
    assert_eq!(back, r);
    assert!(Rect2::<i32>::new(-1, 0, 3, 4).try_convert::<u8>().is_err());
    assert_eq!(
        Rect2::<i32>::new(1, 2, 3, 4).try_convert::<u8>(),
        Ok(Rect2::new(1u8, 2, 3, 4))
    );
}

#[test]
fn test_rect_arithmetic() {
    let r = Rect2::new(1, 2, 3, 4);
    assert_eq!(r.add(Vector2::new(10, 20)), Rect2::new(11, 22, 13, 24));
    assert_eq!(r.sub(Vector2::new(1, 1)), Rect2::new(0, 1, 2, 3));
    assert_eq!(r.mul(Vector2::new(2, 3)), Rect2::new(2, 6, 6, 12));
    assert_eq!(Rect2::new(10, 20, 30, 41).div(Vector2::new(10, 20)), Rect2::new(1, 1, 3, 2));
    assert_eq!(r.mul_scalar(5), Rect2::new(5, 10, 15, 20));
    assert_eq!(Rect2::new(10, 21, 30, 43).div_scalar(10), Rect2::new(1, 2, 3, 4));
    assert_eq!(r.neg(), Rect2::new(-1, -2, -3, -4));
}

#[test]
fn test_rect_assign_ops() {
    let mut r = Rect2::new(1, 2, 3, 4);
    r.add_assign(Vector2::new(1, 1));
    assert_eq!(r, Rect2::new(2, 3, 4, 5));
    r.sub_assign(Vector2::new(2, 3));
    assert_eq!(r, Rect2::new(0, 0, 2, 2));
    r.mul_assign(Vector2::new(3, 4));
    assert_eq!(r, Rect2::new(0, 0, 6, 8));
    r.div_assign(Vector2::new(3, 2));
    assert_eq!(r, Rect2::new(0, 0, 2, 4));
    r.mul_assign_scalar(6);
    assert_eq!(r, Rect2::new(0, 0, 12, 24));
    r.div_assign_scalar(4);
    assert_eq!(r, Rect2::new(0, 0, 3, 6));
}

#[test]
fn test_rect3_arithmetic_and_intersection() {
    let b = Rect3::new(0, 0, 0, 10, 10, 10);
    assert_eq!(b.add(Vector3::new(1, 2, 3)), Rect3::new(1, 2, 3, 11, 12, 13));
    assert_eq!(
        b.intersect(Rect3::new(5, 5, 5, 20, 20, 20)),
        Some(Rect3::new(5, 5, 5, 10, 10, 10))
    );
    assert_eq!(b.intersect(Rect3::new(10, 0, 0, 20, 10, 10)), None);
    let flat = Rect3::new(0, 0, 5, 10, 10, 5);
    assert_eq!(flat.expand(b), flat);
}
