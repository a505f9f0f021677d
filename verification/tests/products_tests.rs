use vecrect::{cross, dot, vec2, vec3, vec4, Cross, Dot, Vector3};

#[test]
fn test_dot_values() {
    assert_eq!(dot(vec2(1, 2), vec2(3, 4)), 11);
    assert_eq!(dot(vec3(1, 2, 3), vec3(4, 5, 6)), 32);
    assert_eq!(dot(vec4(1, 2, 3, 4), vec4(5, 6, 7, 8)), 70);
    assert_eq!(vec2(1, 2).dot(vec2(3, 4)), 11);
}

#[test]
fn test_dot_commutative() {
    let a = vec3(-2, 7, 5);
    let b = vec3(4, 0, -3);
    assert_eq!(dot(a, b), dot(b, a));
    let c = vec4(1, -2, 3, -4);
    let d = vec4(5, 6, -7, 8);
    assert_eq!(dot(c, d), dot(d, c));
    let e = vec2(9, -1);
    let f = vec2(2, 11);
    assert_eq!(dot(e, f), dot(f, e));
}

#[test]
fn test_cross_values() {
    // The standard basis: x cross y is z.
    assert_eq!(cross(vec3(1, 0, 0), vec3(0, 1, 0)), vec3(0, 0, 1));
    assert_eq!(vec3(1, 2, 3).cross(vec3(4, 5, 6)), vec3(-3, 6, -3));
}

#[test]
fn test_cross_anticommutative() {
    let a = vec3(1, 2, 3);
    let b = vec3(4, 5, 6);
    assert_eq!(cross(a, b), cross(b, a).neg());
}

#[test]
fn test_cross_orthogonal_to_operands() {
    let a = vec3(3, -5, 7);
    let b = vec3(2, 9, -4);
    let c = cross(a, b);
    assert_eq!(dot(a, c), 0);
    assert_eq!(dot(b, c), 0);
}

#[test]
fn test_cross_of_parallel_vectors_is_zero() {
    let a = vec3(2, -4, 6);
    assert_eq!(cross(a, a.mul_scalar(3)), Vector3::new(0, 0, 0));
}
