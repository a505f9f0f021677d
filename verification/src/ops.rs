//! Algebraic products over the vector types: the dot product for every
//! dimension and the cross product for 3-component vectors. No cross product
//! exists for 2- or 4-component vectors; that is a deliberate scope boundary.

use vstd::prelude::*;

use crate::scalar::{fits, Scalar};
use crate::vector::{Vector2, Vector3, Vector4};

verus! {

/// Computes a dot product: a component-wise multiplication followed by a
/// left-to-right sum of the products.
pub trait Dot {
    type Output;

    /// Whether every intermediate value of the dot product (each product and
    /// each partial sum, in x, y, z, w order) is representable.
    spec fn dot_ok(self, rhs: Self) -> bool;

    /// The mathematical value of the dot product.
    spec fn dot_int(self, rhs: Self) -> int;

    /// The mathematical value of a result.
    spec fn output_int(o: Self::Output) -> int;

    /// Computes the dot product of `self` and `rhs`.
    fn dot(self, rhs: Self) -> (r: Self::Output)
        requires
            self.dot_ok(rhs),
        ensures
            Self::output_int(r) == self.dot_int(rhs),
    ;
}

/// Computes a cross product.
pub trait Cross {
    type Output;

    /// Whether every intermediate value of the cross product is representable.
    spec fn cross_ok(self, rhs: Self) -> bool;

    /// How the result's components relate to the operands' components.
    spec fn cross_post(self, rhs: Self, out: Self::Output) -> bool;

    /// Computes the cross product of `self` and `rhs`.
    fn cross(self, rhs: Self) -> (r: Self::Output)
        requires
            self.cross_ok(rhs),
        ensures
            self.cross_post(rhs, r),
    ;
}

/// Computes a dot product.
pub fn dot<V: Dot>(lhs: V, rhs: V) -> (r: V::Output)
    requires
        lhs.dot_ok(rhs),
    ensures
        V::output_int(r) == lhs.dot_int(rhs),
{
    Dot::dot(lhs, rhs)
}

/// Computes a cross product.
pub fn cross<V: Cross>(lhs: V, rhs: V) -> (r: V::Output)
    requires
        lhs.cross_ok(rhs),
    ensures
        lhs.cross_post(rhs, r),
{
    Cross::cross(lhs, rhs)
}

impl<T: Scalar> Dot for Vector2<T> {
    type Output = T;

    open spec fn dot_ok(self, rhs: Vector2<T>) -> bool {
        &&& fits::<T>(self.x.as_int() * rhs.x.as_int())
        &&& fits::<T>(self.y.as_int() * rhs.y.as_int())
        &&& fits::<T>(self.x.as_int() * rhs.x.as_int() + self.y.as_int() * rhs.y.as_int())
    }

    open spec fn dot_int(self, rhs: Vector2<T>) -> int {
        self.x.as_int() * rhs.x.as_int() + self.y.as_int() * rhs.y.as_int()
    }

    open spec fn output_int(o: T) -> int {
        o.as_int()
    }

    fn dot(self, rhs: Vector2<T>) -> T {
        self.mul(rhs).sum()
    }
}

impl<T: Scalar> Dot for Vector3<T> {
    type Output = T;

    open spec fn dot_ok(self, rhs: Vector3<T>) -> bool {
        &&& fits::<T>(self.x.as_int() * rhs.x.as_int())
        &&& fits::<T>(self.y.as_int() * rhs.y.as_int())
        &&& fits::<T>(self.z.as_int() * rhs.z.as_int())
        &&& fits::<T>(self.x.as_int() * rhs.x.as_int() + self.y.as_int() * rhs.y.as_int())
        &&& fits::<T>(
            self.x.as_int() * rhs.x.as_int() + self.y.as_int() * rhs.y.as_int() + self.z.as_int()
                * rhs.z.as_int(),
        )
    }

    open spec fn dot_int(self, rhs: Vector3<T>) -> int {
        self.x.as_int() * rhs.x.as_int() + self.y.as_int() * rhs.y.as_int() + self.z.as_int()
            * rhs.z.as_int()
    }

    open spec fn output_int(o: T) -> int {
        o.as_int()
    }

    fn dot(self, rhs: Vector3<T>) -> T {
        self.mul(rhs).sum()
    }
}

impl<T: Scalar> Dot for Vector4<T> {
    type Output = T;

    open spec fn dot_ok(self, rhs: Vector4<T>) -> bool {
        &&& fits::<T>(self.x.as_int() * rhs.x.as_int())
        &&& fits::<T>(self.y.as_int() * rhs.y.as_int())
        &&& fits::<T>(self.z.as_int() * rhs.z.as_int())
        &&& fits::<T>(self.w.as_int() * rhs.w.as_int())
        &&& fits::<T>(self.x.as_int() * rhs.x.as_int() + self.y.as_int() * rhs.y.as_int())
        &&& fits::<T>(
            self.x.as_int() * rhs.x.as_int() + self.y.as_int() * rhs.y.as_int() + self.z.as_int()
                * rhs.z.as_int(),
        )
        &&& fits::<T>(
            self.x.as_int() * rhs.x.as_int() + self.y.as_int() * rhs.y.as_int() + self.z.as_int()
                * rhs.z.as_int() + self.w.as_int() * rhs.w.as_int(),
        )
    }

    open spec fn dot_int(self, rhs: Vector4<T>) -> int {
        self.x.as_int() * rhs.x.as_int() + self.y.as_int() * rhs.y.as_int() + self.z.as_int()
            * rhs.z.as_int() + self.w.as_int() * rhs.w.as_int()
    }

    open spec fn output_int(o: T) -> int {
        o.as_int()
    }

    fn dot(self, rhs: Vector4<T>) -> T {
        self.mul(rhs).sum()
    }
}

/// The mathematical value of the x component of a cross product.
pub open spec fn cross_x_int<T: Scalar>(a: Vector3<T>, b: Vector3<T>) -> int {
    a.y.as_int() * b.z.as_int() - a.z.as_int() * b.y.as_int()
}

/// The mathematical value of the y component of a cross product.
pub open spec fn cross_y_int<T: Scalar>(a: Vector3<T>, b: Vector3<T>) -> int {
    a.z.as_int() * b.x.as_int() - a.x.as_int() * b.z.as_int()
}

/// The mathematical value of the z component of a cross product.
pub open spec fn cross_z_int<T: Scalar>(a: Vector3<T>, b: Vector3<T>) -> int {
    a.x.as_int() * b.y.as_int() - a.y.as_int() * b.x.as_int()
}

impl<T: Scalar> Cross for Vector3<T> {
    type Output = Vector3<T>;

    open spec fn cross_ok(self, rhs: Vector3<T>) -> bool {
        &&& fits::<T>(self.y.as_int() * rhs.z.as_int())
        &&& fits::<T>(self.z.as_int() * rhs.y.as_int())
        &&& fits::<T>(self.z.as_int() * rhs.x.as_int())
        &&& fits::<T>(self.x.as_int() * rhs.z.as_int())
        &&& fits::<T>(self.x.as_int() * rhs.y.as_int())
        &&& fits::<T>(self.y.as_int() * rhs.x.as_int())
        &&& fits::<T>(cross_x_int(self, rhs))
        &&& fits::<T>(cross_y_int(self, rhs))
        &&& fits::<T>(cross_z_int(self, rhs))
    }

    open spec fn cross_post(self, rhs: Vector3<T>, out: Vector3<T>) -> bool {
        &&& out.x.as_int() == cross_x_int(self, rhs)
        &&& out.y.as_int() == cross_y_int(self, rhs)
        &&& out.z.as_int() == cross_z_int(self, rhs)
    }

    fn cross(self, rhs: Vector3<T>) -> Vector3<T> {
        Vector3 {
            x: self.y.mul(rhs.z).sub(self.z.mul(rhs.y)),
            y: self.z.mul(rhs.x).sub(self.x.mul(rhs.z)),
            z: self.x.mul(rhs.y).sub(self.y.mul(rhs.x)),
        }
    }
}

/// The dot product is commutative, and so is its representability condition.
pub proof fn lemma_dot_commutative_2<T: Scalar>(a: Vector2<T>, b: Vector2<T>)
    ensures
        a.dot_int(b) == b.dot_int(a),
        a.dot_ok(b) == b.dot_ok(a),
{
}

/// The dot product is commutative, and so is its representability condition.
pub proof fn lemma_dot_commutative_3<T: Scalar>(a: Vector3<T>, b: Vector3<T>)
    ensures
        a.dot_int(b) == b.dot_int(a),
        a.dot_ok(b) == b.dot_ok(a),
{
}

/// The dot product is commutative, and so is its representability condition.
pub proof fn lemma_dot_commutative_4<T: Scalar>(a: Vector4<T>, b: Vector4<T>)
    ensures
        a.dot_int(b) == b.dot_int(a),
        a.dot_ok(b) == b.dot_ok(a),
{
}

/// The cross product is anticommutative: when `c` is the cross product of
/// `a` and `b`, and `d` the cross product of `b` and `a`, each component of
/// `c` is the negation of the corresponding component of `d`.
pub proof fn lemma_cross_anticommutative<T: Scalar>(
    a: Vector3<T>,
    b: Vector3<T>,
    c: Vector3<T>,
    d: Vector3<T>,
)
    requires
        a.cross_post(b, c),
        b.cross_post(a, d),
    ensures
        c.x.as_int() == -d.x.as_int(),
        c.y.as_int() == -d.y.as_int(),
        c.z.as_int() == -d.z.as_int(),
{
}

/// The cross product of `a` and `b` is orthogonal to `a`: the dot product of
/// `a` with the cross product is exactly zero.
pub proof fn lemma_cross_orthogonal<T: Scalar>(a: Vector3<T>, b: Vector3<T>, c: Vector3<T>)
    requires
        a.cross_post(b, c),
    ensures
        a.dot_int(c) == 0,
{
    let ax = a.x.as_int();
    let ay = a.y.as_int();
    let az = a.z.as_int();
    let bx = b.x.as_int();
    let by = b.y.as_int();
    let bz = b.z.as_int();
    assert(ax * (ay * bz - az * by) + ay * (az * bx - ax * bz) + az * (ax * by - ay * bx)
        == 0) by (nonlinear_arith);
}

} // verus!
