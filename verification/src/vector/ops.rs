//! Component-wise arithmetic on the vector types: negation, the four binary
//! operators against a same-dimension vector or a broadcast scalar, and the
//! in-place assignment forms of each.

use vstd::prelude::*;

use crate::scalar::{fits, trunc_div, Scalar};
use crate::vector::{Vector2, Vector3, Vector4};

verus! {

impl<T: Scalar> Vector2<T> {
    /// Component-wise negation.
    pub fn neg(self) -> (r: Vector2<T>)
        requires
            fits::<T>(-self.x.as_int()),
            fits::<T>(-self.y.as_int()),
        ensures
            r.x.as_int() == -self.x.as_int(),
            r.y.as_int() == -self.y.as_int(),
    {
        Vector2 { x: self.x.neg(), y: self.y.neg() }
    }

    /// Component-wise addition.
    pub fn add(self, rhs: Vector2<T>) -> (r: Vector2<T>)
        requires
            fits::<T>(self.x.as_int() + rhs.x.as_int()),
            fits::<T>(self.y.as_int() + rhs.y.as_int()),
        ensures
            r.x.as_int() == self.x.as_int() + rhs.x.as_int(),
            r.y.as_int() == self.y.as_int() + rhs.y.as_int(),
    {
        Vector2 { x: self.x.add(rhs.x), y: self.y.add(rhs.y) }
    }

    /// Component-wise subtraction.
    pub fn sub(self, rhs: Vector2<T>) -> (r: Vector2<T>)
        requires
            fits::<T>(self.x.as_int() - rhs.x.as_int()),
            fits::<T>(self.y.as_int() - rhs.y.as_int()),
        ensures
            r.x.as_int() == self.x.as_int() - rhs.x.as_int(),
            r.y.as_int() == self.y.as_int() - rhs.y.as_int(),
    {
        Vector2 { x: self.x.sub(rhs.x), y: self.y.sub(rhs.y) }
    }

    /// Component-wise multiplication.
    pub fn mul(self, rhs: Vector2<T>) -> (r: Vector2<T>)
        requires
            fits::<T>(self.x.as_int() * rhs.x.as_int()),
            fits::<T>(self.y.as_int() * rhs.y.as_int()),
        ensures
            r.x.as_int() == self.x.as_int() * rhs.x.as_int(),
            r.y.as_int() == self.y.as_int() * rhs.y.as_int(),
    {
        Vector2 { x: self.x.mul(rhs.x), y: self.y.mul(rhs.y) }
    }

    /// Component-wise division, truncating toward zero.
    pub fn div(self, rhs: Vector2<T>) -> (r: Vector2<T>)
        requires
            rhs.x.as_int() != 0,
            rhs.y.as_int() != 0,
            fits::<T>(trunc_div(self.x.as_int(), rhs.x.as_int())),
            fits::<T>(trunc_div(self.y.as_int(), rhs.y.as_int())),
        ensures
            r.x.as_int() == trunc_div(self.x.as_int(), rhs.x.as_int()),
            r.y.as_int() == trunc_div(self.y.as_int(), rhs.y.as_int()),
    {
        Vector2 { x: self.x.div(rhs.x), y: self.y.div(rhs.y) }
    }

    /// Addition of a scalar broadcast to every component.
    pub fn add_scalar(self, rhs: T) -> (r: Vector2<T>)
        requires
            fits::<T>(self.x.as_int() + rhs.as_int()),
            fits::<T>(self.y.as_int() + rhs.as_int()),
        ensures
            r.x.as_int() == self.x.as_int() + rhs.as_int(),
            r.y.as_int() == self.y.as_int() + rhs.as_int(),
    {
        Vector2 { x: self.x.add(rhs), y: self.y.add(rhs) }
    }

    /// Subtraction of a scalar broadcast to every component.
    pub fn sub_scalar(self, rhs: T) -> (r: Vector2<T>)
        requires
            fits::<T>(self.x.as_int() - rhs.as_int()),
            fits::<T>(self.y.as_int() - rhs.as_int()),
        ensures
            r.x.as_int() == self.x.as_int() - rhs.as_int(),
            r.y.as_int() == self.y.as_int() - rhs.as_int(),
    {
        Vector2 { x: self.x.sub(rhs), y: self.y.sub(rhs) }
    }

    /// Multiplication by a scalar broadcast to every component.
    pub fn mul_scalar(self, rhs: T) -> (r: Vector2<T>)
        requires
            fits::<T>(self.x.as_int() * rhs.as_int()),
            fits::<T>(self.y.as_int() * rhs.as_int()),
        ensures
            r.x.as_int() == self.x.as_int() * rhs.as_int(),
            r.y.as_int() == self.y.as_int() * rhs.as_int(),
    {
        Vector2 { x: self.x.mul(rhs), y: self.y.mul(rhs) }
    }

    /// Division by a scalar broadcast to every component.
    pub fn div_scalar(self, rhs: T) -> (r: Vector2<T>)
        requires
            rhs.as_int() != 0,
            fits::<T>(trunc_div(self.x.as_int(), rhs.as_int())),
            fits::<T>(trunc_div(self.y.as_int(), rhs.as_int())),
        ensures
            r.x.as_int() == trunc_div(self.x.as_int(), rhs.as_int()),
            r.y.as_int() == trunc_div(self.y.as_int(), rhs.as_int()),
    {
        Vector2 { x: self.x.div(rhs), y: self.y.div(rhs) }
    }

    /// In-place component-wise addition.
    pub fn add_assign(&mut self, rhs: Vector2<T>)
        requires
            fits::<T>(old(self).x.as_int() + rhs.x.as_int()),
            fits::<T>(old(self).y.as_int() + rhs.y.as_int()),
        ensures
            final(self).x.as_int() == old(self).x.as_int() + rhs.x.as_int(),
            final(self).y.as_int() == old(self).y.as_int() + rhs.y.as_int(),
    {
        self.x = self.x.add(rhs.x);
        self.y = self.y.add(rhs.y);
    }

    /// In-place component-wise subtraction.
    pub fn sub_assign(&mut self, rhs: Vector2<T>)
        requires
            fits::<T>(old(self).x.as_int() - rhs.x.as_int()),
            fits::<T>(old(self).y.as_int() - rhs.y.as_int()),
        ensures
            final(self).x.as_int() == old(self).x.as_int() - rhs.x.as_int(),
            final(self).y.as_int() == old(self).y.as_int() - rhs.y.as_int(),
    {
        self.x = self.x.sub(rhs.x);
        self.y = self.y.sub(rhs.y);
    }

    /// In-place component-wise multiplication.
    pub fn mul_assign(&mut self, rhs: Vector2<T>)
        requires
            fits::<T>(old(self).x.as_int() * rhs.x.as_int()),
            fits::<T>(old(self).y.as_int() * rhs.y.as_int()),
        ensures
            final(self).x.as_int() == old(self).x.as_int() * rhs.x.as_int(),
            final(self).y.as_int() == old(self).y.as_int() * rhs.y.as_int(),
    {
        self.x = self.x.mul(rhs.x);
        self.y = self.y.mul(rhs.y);
    }

    /// In-place component-wise division.
    pub fn div_assign(&mut self, rhs: Vector2<T>)
        requires
            rhs.x.as_int() != 0,
            rhs.y.as_int() != 0,
            fits::<T>(trunc_div(old(self).x.as_int(), rhs.x.as_int())),
            fits::<T>(trunc_div(old(self).y.as_int(), rhs.y.as_int())),
        ensures
            final(self).x.as_int() == trunc_div(old(self).x.as_int(), rhs.x.as_int()),
            final(self).y.as_int() == trunc_div(old(self).y.as_int(), rhs.y.as_int()),
    {
        self.x = self.x.div(rhs.x);
        self.y = self.y.div(rhs.y);
    }

    /// In-place addition of a broadcast scalar.
    pub fn add_assign_scalar(&mut self, rhs: T)
        requires
            fits::<T>(old(self).x.as_int() + rhs.as_int()),
            fits::<T>(old(self).y.as_int() + rhs.as_int()),
        ensures
            final(self).x.as_int() == old(self).x.as_int() + rhs.as_int(),
            final(self).y.as_int() == old(self).y.as_int() + rhs.as_int(),
    {
        self.x = self.x.add(rhs);
        self.y = self.y.add(rhs);
    }

    /// In-place subtraction of a broadcast scalar.
    pub fn sub_assign_scalar(&mut self, rhs: T)
        requires
            fits::<T>(old(self).x.as_int() - rhs.as_int()),
            fits::<T>(old(self).y.as_int() - rhs.as_int()),
        ensures
            final(self).x.as_int() == old(self).x.as_int() - rhs.as_int(),
            final(self).y.as_int() == old(self).y.as_int() - rhs.as_int(),
    {
        self.x = self.x.sub(rhs);
        self.y = self.y.sub(rhs);
    }

    /// In-place multiplication by a broadcast scalar.
    pub fn mul_assign_scalar(&mut self, rhs: T)
        requires
            fits::<T>(old(self).x.as_int() * rhs.as_int()),
            fits::<T>(old(self).y.as_int() * rhs.as_int()),
        ensures
            final(self).x.as_int() == old(self).x.as_int() * rhs.as_int(),
            final(self).y.as_int() == old(self).y.as_int() * rhs.as_int(),
    {
        self.x = self.x.mul(rhs);
        self.y = self.y.mul(rhs);
    }

    /// In-place division by a broadcast scalar.
    pub fn div_assign_scalar(&mut self, rhs: T)
        requires
            rhs.as_int() != 0,
            fits::<T>(trunc_div(old(self).x.as_int(), rhs.as_int())),
            fits::<T>(trunc_div(old(self).y.as_int(), rhs.as_int())),
        ensures
            final(self).x.as_int() == trunc_div(old(self).x.as_int(), rhs.as_int()),
            final(self).y.as_int() == trunc_div(old(self).y.as_int(), rhs.as_int()),
    {
        self.x = self.x.div(rhs);
        self.y = self.y.div(rhs);
    }
}

impl<T: Scalar> Vector3<T> {
    /// Component-wise negation.
    pub fn neg(self) -> (r: Vector3<T>)
        requires
            fits::<T>(-self.x.as_int()),
            fits::<T>(-self.y.as_int()),
            fits::<T>(-self.z.as_int()),
        ensures
            r.x.as_int() == -self.x.as_int(),
            r.y.as_int() == -self.y.as_int(),
            r.z.as_int() == -self.z.as_int(),
    {
        Vector3 { x: self.x.neg(), y: self.y.neg(), z: self.z.neg() }
    }

    /// Component-wise addition.
    pub fn add(self, rhs: Vector3<T>) -> (r: Vector3<T>)
        requires
            fits::<T>(self.x.as_int() + rhs.x.as_int()),
            fits::<T>(self.y.as_int() + rhs.y.as_int()),
            fits::<T>(self.z.as_int() + rhs.z.as_int()),
        ensures
            r.x.as_int() == self.x.as_int() + rhs.x.as_int(),
            r.y.as_int() == self.y.as_int() + rhs.y.as_int(),
            r.z.as_int() == self.z.as_int() + rhs.z.as_int(),
    {
        Vector3 { x: self.x.add(rhs.x), y: self.y.add(rhs.y), z: self.z.add(rhs.z) }
    }

    /// Component-wise subtraction.
    pub fn sub(self, rhs: Vector3<T>) -> (r: Vector3<T>)
        requires
            fits::<T>(self.x.as_int() - rhs.x.as_int()),
            fits::<T>(self.y.as_int() - rhs.y.as_int()),
            fits::<T>(self.z.as_int() - rhs.z.as_int()),
        ensures
            r.x.as_int() == self.x.as_int() - rhs.x.as_int(),
            r.y.as_int() == self.y.as_int() - rhs.y.as_int(),
            r.z.as_int() == self.z.as_int() - rhs.z.as_int(),
    {
        Vector3 { x: self.x.sub(rhs.x), y: self.y.sub(rhs.y), z: self.z.sub(rhs.z) }
    }

    /// Component-wise multiplication.
    pub fn mul(self, rhs: Vector3<T>) -> (r: Vector3<T>)
        requires
            fits::<T>(self.x.as_int() * rhs.x.as_int()),
            fits::<T>(self.y.as_int() * rhs.y.as_int()),
            fits::<T>(self.z.as_int() * rhs.z.as_int()),
        ensures
            r.x.as_int() == self.x.as_int() * rhs.x.as_int(),
            r.y.as_int() == self.y.as_int() * rhs.y.as_int(),
            r.z.as_int() == self.z.as_int() * rhs.z.as_int(),
    {
        Vector3 { x: self.x.mul(rhs.x), y: self.y.mul(rhs.y), z: self.z.mul(rhs.z) }
    }

    /// Component-wise division, truncating toward zero.
    pub fn div(self, rhs: Vector3<T>) -> (r: Vector3<T>)
        requires
            rhs.x.as_int() != 0,
            rhs.y.as_int() != 0,
            rhs.z.as_int() != 0,
            fits::<T>(trunc_div(self.x.as_int(), rhs.x.as_int())),
            fits::<T>(trunc_div(self.y.as_int(), rhs.y.as_int())),
            fits::<T>(trunc_div(self.z.as_int(), rhs.z.as_int())),
        ensures
            r.x.as_int() == trunc_div(self.x.as_int(), rhs.x.as_int()),
            r.y.as_int() == trunc_div(self.y.as_int(), rhs.y.as_int()),
            r.z.as_int() == trunc_div(self.z.as_int(), rhs.z.as_int()),
    {
        Vector3 { x: self.x.div(rhs.x), y: self.y.div(rhs.y), z: self.z.div(rhs.z) }
    }

    /// Addition of a scalar broadcast to every component.
    pub fn add_scalar(self, rhs: T) -> (r: Vector3<T>)
        requires
            fits::<T>(self.x.as_int() + rhs.as_int()),
            fits::<T>(self.y.as_int() + rhs.as_int()),
            fits::<T>(self.z.as_int() + rhs.as_int()),
        ensures
            r.x.as_int() == self.x.as_int() + rhs.as_int(),
            r.y.as_int() == self.y.as_int() + rhs.as_int(),
            r.z.as_int() == self.z.as_int() + rhs.as_int(),
    {
        Vector3 { x: self.x.add(rhs), y: self.y.add(rhs), z: self.z.add(rhs) }
    }

    /// Subtraction of a scalar broadcast to every component.
    pub fn sub_scalar(self, rhs: T) -> (r: Vector3<T>)
        requires
            fits::<T>(self.x.as_int() - rhs.as_int()),
            fits::<T>(self.y.as_int() - rhs.as_int()),
            fits::<T>(self.z.as_int() - rhs.as_int()),
        ensures
            r.x.as_int() == self.x.as_int() - rhs.as_int(),
            r.y.as_int() == self.y.as_int() - rhs.as_int(),
            r.z.as_int() == self.z.as_int() - rhs.as_int(),
    {
        Vector3 { x: self.x.sub(rhs), y: self.y.sub(rhs), z: self.z.sub(rhs) }
    }

    /// Multiplication by a scalar broadcast to every component.
    pub fn mul_scalar(self, rhs: T) -> (r: Vector3<T>)
        requires
            fits::<T>(self.x.as_int() * rhs.as_int()),
            fits::<T>(self.y.as_int() * rhs.as_int()),
            fits::<T>(self.z.as_int() * rhs.as_int()),
        ensures
            r.x.as_int() == self.x.as_int() * rhs.as_int(),
            r.y.as_int() == self.y.as_int() * rhs.as_int(),
            r.z.as_int() == self.z.as_int() * rhs.as_int(),
    {
        Vector3 { x: self.x.mul(rhs), y: self.y.mul(rhs), z: self.z.mul(rhs) }
    }

    /// Division by a scalar broadcast to every component.
    pub fn div_scalar(self, rhs: T) -> (r: Vector3<T>)
        requires
            rhs.as_int() != 0,
            fits::<T>(trunc_div(self.x.as_int(), rhs.as_int())),
            fits::<T>(trunc_div(self.y.as_int(), rhs.as_int())),
            fits::<T>(trunc_div(self.z.as_int(), rhs.as_int())),
        ensures
            r.x.as_int() == trunc_div(self.x.as_int(), rhs.as_int()),
            r.y.as_int() == trunc_div(self.y.as_int(), rhs.as_int()),
            r.z.as_int() == trunc_div(self.z.as_int(), rhs.as_int()),
    {
        Vector3 { x: self.x.div(rhs), y: self.y.div(rhs), z: self.z.div(rhs) }
    }

    /// In-place component-wise addition.
    pub fn add_assign(&mut self, rhs: Vector3<T>)
        requires
            fits::<T>(old(self).x.as_int() + rhs.x.as_int()),
            fits::<T>(old(self).y.as_int() + rhs.y.as_int()),
            fits::<T>(old(self).z.as_int() + rhs.z.as_int()),
        ensures
            final(self).x.as_int() == old(self).x.as_int() + rhs.x.as_int(),
            final(self).y.as_int() == old(self).y.as_int() + rhs.y.as_int(),
            final(self).z.as_int() == old(self).z.as_int() + rhs.z.as_int(),
    {
        self.x = self.x.add(rhs.x);
        self.y = self.y.add(rhs.y);
        self.z = self.z.add(rhs.z);
    }

    /// In-place component-wise subtraction.
    pub fn sub_assign(&mut self, rhs: Vector3<T>)
        requires
            fits::<T>(old(self).x.as_int() - rhs.x.as_int()),
            fits::<T>(old(self).y.as_int() - rhs.y.as_int()),
            fits::<T>(old(self).z.as_int() - rhs.z.as_int()),
        ensures
            final(self).x.as_int() == old(self).x.as_int() - rhs.x.as_int(),
            final(self).y.as_int() == old(self).y.as_int() - rhs.y.as_int(),
            final(self).z.as_int() == old(self).z.as_int() - rhs.z.as_int(),
    {
        self.x = self.x.sub(rhs.x);
        self.y = self.y.sub(rhs.y);
        self.z = self.z.sub(rhs.z);
    }

    /// In-place component-wise multiplication.
    pub fn mul_assign(&mut self, rhs: Vector3<T>)
        requires
            fits::<T>(old(self).x.as_int() * rhs.x.as_int()),
            fits::<T>(old(self).y.as_int() * rhs.y.as_int()),
            fits::<T>(old(self).z.as_int() * rhs.z.as_int()),
        ensures
            final(self).x.as_int() == old(self).x.as_int() * rhs.x.as_int(),
            final(self).y.as_int() == old(self).y.as_int() * rhs.y.as_int(),
            final(self).z.as_int() == old(self).z.as_int() * rhs.z.as_int(),
    {
        self.x = self.x.mul(rhs.x);
        self.y = self.y.mul(rhs.y);
        self.z = self.z.mul(rhs.z);
    }

    /// In-place component-wise division.
    pub fn div_assign(&mut self, rhs: Vector3<T>)
        requires
            rhs.x.as_int() != 0,
            rhs.y.as_int() != 0,
            rhs.z.as_int() != 0,
            fits::<T>(trunc_div(old(self).x.as_int(), rhs.x.as_int())),
            fits::<T>(trunc_div(old(self).y.as_int(), rhs.y.as_int())),
            fits::<T>(trunc_div(old(self).z.as_int(), rhs.z.as_int())),
        ensures
            final(self).x.as_int() == trunc_div(old(self).x.as_int(), rhs.x.as_int()),
            final(self).y.as_int() == trunc_div(old(self).y.as_int(), rhs.y.as_int()),
            final(self).z.as_int() == trunc_div(old(self).z.as_int(), rhs.z.as_int()),
    {
        self.x = self.x.div(rhs.x);
        self.y = self.y.div(rhs.y);
        self.z = self.z.div(rhs.z);
    }

    /// In-place addition of a broadcast scalar.
    pub fn add_assign_scalar(&mut self, rhs: T)
        requires
            fits::<T>(old(self).x.as_int() + rhs.as_int()),
            fits::<T>(old(self).y.as_int() + rhs.as_int()),
            fits::<T>(old(self).z.as_int() + rhs.as_int()),
        ensures
            final(self).x.as_int() == old(self).x.as_int() + rhs.as_int(),
            final(self).y.as_int() == old(self).y.as_int() + rhs.as_int(),
            final(self).z.as_int() == old(self).z.as_int() + rhs.as_int(),
    {
        self.x = self.x.add(rhs);
        self.y = self.y.add(rhs);
        self.z = self.z.add(rhs);
    }

    /// In-place subtraction of a broadcast scalar.
    pub fn sub_assign_scalar(&mut self, rhs: T)
        requires
            fits::<T>(old(self).x.as_int() - rhs.as_int()),
            fits::<T>(old(self).y.as_int() - rhs.as_int()),
            fits::<T>(old(self).z.as_int() - rhs.as_int()),
        ensures
            final(self).x.as_int() == old(self).x.as_int() - rhs.as_int(),
            final(self).y.as_int() == old(self).y.as_int() - rhs.as_int(),
            final(self).z.as_int() == old(self).z.as_int() - rhs.as_int(),
    {
        self.x = self.x.sub(rhs);
        self.y = self.y.sub(rhs);
        self.z = self.z.sub(rhs);
    }

    /// In-place multiplication by a broadcast scalar.
    pub fn mul_assign_scalar(&mut self, rhs: T)
        requires
            fits::<T>(old(self).x.as_int() * rhs.as_int()),
            fits::<T>(old(self).y.as_int() * rhs.as_int()),
            fits::<T>(old(self).z.as_int() * rhs.as_int()),
        ensures
            final(self).x.as_int() == old(self).x.as_int() * rhs.as_int(),
            final(self).y.as_int() == old(self).y.as_int() * rhs.as_int(),
            final(self).z.as_int() == old(self).z.as_int() * rhs.as_int(),
    {
        self.x = self.x.mul(rhs);
        self.y = self.y.mul(rhs);
        self.z = self.z.mul(rhs);
    }

    /// In-place division by a broadcast scalar.
    pub fn div_assign_scalar(&mut self, rhs: T)
        requires
            rhs.as_int() != 0,
            fits::<T>(trunc_div(old(self).x.as_int(), rhs.as_int())),
            fits::<T>(trunc_div(old(self).y.as_int(), rhs.as_int())),
            fits::<T>(trunc_div(old(self).z.as_int(), rhs.as_int())),
        ensures
            final(self).x.as_int() == trunc_div(old(self).x.as_int(), rhs.as_int()),
            final(self).y.as_int() == trunc_div(old(self).y.as_int(), rhs.as_int()),
            final(self).z.as_int() == trunc_div(old(self).z.as_int(), rhs.as_int()),
    {
        self.x = self.x.div(rhs);
        self.y = self.y.div(rhs);
        self.z = self.z.div(rhs);
    }
}

impl<T: Scalar> Vector4<T> {
    /// Component-wise negation.
    pub fn neg(self) -> (r: Vector4<T>)
        requires
            fits::<T>(-self.x.as_int()),
            fits::<T>(-self.y.as_int()),
            fits::<T>(-self.z.as_int()),
            fits::<T>(-self.w.as_int()),
        ensures
            r.x.as_int() == -self.x.as_int(),
            r.y.as_int() == -self.y.as_int(),
            r.z.as_int() == -self.z.as_int(),
            r.w.as_int() == -self.w.as_int(),
    {
        Vector4 { x: self.x.neg(), y: self.y.neg(), z: self.z.neg(), w: self.w.neg() }
    }

    /// Component-wise addition.
    pub fn add(self, rhs: Vector4<T>) -> (r: Vector4<T>)
        requires
            fits::<T>(self.x.as_int() + rhs.x.as_int()),
            fits::<T>(self.y.as_int() + rhs.y.as_int()),
            fits::<T>(self.z.as_int() + rhs.z.as_int()),
            fits::<T>(self.w.as_int() + rhs.w.as_int()),
        ensures
            r.x.as_int() == self.x.as_int() + rhs.x.as_int(),
            r.y.as_int() == self.y.as_int() + rhs.y.as_int(),
            r.z.as_int() == self.z.as_int() + rhs.z.as_int(),
            r.w.as_int() == self.w.as_int() + rhs.w.as_int(),
    {
        Vector4 { x: self.x.add(rhs.x), y: self.y.add(rhs.y), z: self.z.add(rhs.z), w: self.w.add(rhs.w) }
    }

    /// Component-wise subtraction.
    pub fn sub(self, rhs: Vector4<T>) -> (r: Vector4<T>)
        requires
            fits::<T>(self.x.as_int() - rhs.x.as_int()),
            fits::<T>(self.y.as_int() - rhs.y.as_int()),
            fits::<T>(self.z.as_int() - rhs.z.as_int()),
            fits::<T>(self.w.as_int() - rhs.w.as_int()),
        ensures
            r.x.as_int() == self.x.as_int() - rhs.x.as_int(),
            r.y.as_int() == self.y.as_int() - rhs.y.as_int(),
            r.z.as_int() == self.z.as_int() - rhs.z.as_int(),
            r.w.as_int() == self.w.as_int() - rhs.w.as_int(),
    {
        Vector4 { x: self.x.sub(rhs.x), y: self.y.sub(rhs.y), z: self.z.sub(rhs.z), w: self.w.sub(rhs.w) }
    }

    /// Component-wise multiplication.
    pub fn mul(self, rhs: Vector4<T>) -> (r: Vector4<T>)
        requires
            fits::<T>(self.x.as_int() * rhs.x.as_int()),
            fits::<T>(self.y.as_int() * rhs.y.as_int()),
            fits::<T>(self.z.as_int() * rhs.z.as_int()),
            fits::<T>(self.w.as_int() * rhs.w.as_int()),
        ensures
            r.x.as_int() == self.x.as_int() * rhs.x.as_int(),
            r.y.as_int() == self.y.as_int() * rhs.y.as_int(),
            r.z.as_int() == self.z.as_int() * rhs.z.as_int(),
            r.w.as_int() == self.w.as_int() * rhs.w.as_int(),
    {
        Vector4 { x: self.x.mul(rhs.x), y: self.y.mul(rhs.y), z: self.z.mul(rhs.z), w: self.w.mul(rhs.w) }
    }

    /// Component-wise division, truncating toward zero.
    pub fn div(self, rhs: Vector4<T>) -> (r: Vector4<T>)
        requires
            rhs.x.as_int() != 0,
            rhs.y.as_int() != 0,
            rhs.z.as_int() != 0,
            rhs.w.as_int() != 0,
            fits::<T>(trunc_div(self.x.as_int(), rhs.x.as_int())),
            fits::<T>(trunc_div(self.y.as_int(), rhs.y.as_int())),
            fits::<T>(trunc_div(self.z.as_int(), rhs.z.as_int())),
            fits::<T>(trunc_div(self.w.as_int(), rhs.w.as_int())),
        ensures
            r.x.as_int() == trunc_div(self.x.as_int(), rhs.x.as_int()),
            r.y.as_int() == trunc_div(self.y.as_int(), rhs.y.as_int()),
            r.z.as_int() == trunc_div(self.z.as_int(), rhs.z.as_int()),
            r.w.as_int() == trunc_div(self.w.as_int(), rhs.w.as_int()),
    {
        Vector4 { x: self.x.div(rhs.x), y: self.y.div(rhs.y), z: self.z.div(rhs.z), w: self.w.div(rhs.w) }
    }

    /// Addition of a scalar broadcast to every component.
    pub fn add_scalar(self, rhs: T) -> (r: Vector4<T>)
        requires
            fits::<T>(self.x.as_int() + rhs.as_int()),
            fits::<T>(self.y.as_int() + rhs.as_int()),
            fits::<T>(self.z.as_int() + rhs.as_int()),
            fits::<T>(self.w.as_int() + rhs.as_int()),
        ensures
            r.x.as_int() == self.x.as_int() + rhs.as_int(),
            r.y.as_int() == self.y.as_int() + rhs.as_int(),
            r.z.as_int() == self.z.as_int() + rhs.as_int(),
            r.w.as_int() == self.w.as_int() + rhs.as_int(),
    {
        Vector4 { x: self.x.add(rhs), y: self.y.add(rhs), z: self.z.add(rhs), w: self.w.add(rhs) }
    }

    /// Subtraction of a scalar broadcast to every component.
    pub fn sub_scalar(self, rhs: T) -> (r: Vector4<T>)
        requires
            fits::<T>(self.x.as_int() - rhs.as_int()),
            fits::<T>(self.y.as_int() - rhs.as_int()),
            fits::<T>(self.z.as_int() - rhs.as_int()),
            fits::<T>(self.w.as_int() - rhs.as_int()),
        ensures
            r.x.as_int() == self.x.as_int() - rhs.as_int(),
            r.y.as_int() == self.y.as_int() - rhs.as_int(),
            r.z.as_int() == self.z.as_int() - rhs.as_int(),
            r.w.as_int() == self.w.as_int() - rhs.as_int(),
    {
        Vector4 { x: self.x.sub(rhs), y: self.y.sub(rhs), z: self.z.sub(rhs), w: self.w.sub(rhs) }
    }

    /// Multiplication by a scalar broadcast to every component.
    pub fn mul_scalar(self, rhs: T) -> (r: Vector4<T>)
        requires
            fits::<T>(self.x.as_int() * rhs.as_int()),
            fits::<T>(self.y.as_int() * rhs.as_int()),
            fits::<T>(self.z.as_int() * rhs.as_int()),
            fits::<T>(self.w.as_int() * rhs.as_int()),
        ensures
            r.x.as_int() == self.x.as_int() * rhs.as_int(),
            r.y.as_int() == self.y.as_int() * rhs.as_int(),
            r.z.as_int() == self.z.as_int() * rhs.as_int(),
            r.w.as_int() == self.w.as_int() * rhs.as_int(),
    {
        Vector4 { x: self.x.mul(rhs), y: self.y.mul(rhs), z: self.z.mul(rhs), w: self.w.mul(rhs) }
    }

    /// Division by a scalar broadcast to every component.
    pub fn div_scalar(self, rhs: T) -> (r: Vector4<T>)
        requires
            rhs.as_int() != 0,
            fits::<T>(trunc_div(self.x.as_int(), rhs.as_int())),
            fits::<T>(trunc_div(self.y.as_int(), rhs.as_int())),
            fits::<T>(trunc_div(self.z.as_int(), rhs.as_int())),
            fits::<T>(trunc_div(self.w.as_int(), rhs.as_int())),
        ensures
            r.x.as_int() == trunc_div(self.x.as_int(), rhs.as_int()),
            r.y.as_int() == trunc_div(self.y.as_int(), rhs.as_int()),
            r.z.as_int() == trunc_div(self.z.as_int(), rhs.as_int()),
            r.w.as_int() == trunc_div(self.w.as_int(), rhs.as_int()),
    {
        Vector4 { x: self.x.div(rhs), y: self.y.div(rhs), z: self.z.div(rhs), w: self.w.div(rhs) }
    }

    /// In-place component-wise addition.
    pub fn add_assign(&mut self, rhs: Vector4<T>)
        requires
            fits::<T>(old(self).x.as_int() + rhs.x.as_int()),
            fits::<T>(old(self).y.as_int() + rhs.y.as_int()),
            fits::<T>(old(self).z.as_int() + rhs.z.as_int()),
            fits::<T>(old(self).w.as_int() + rhs.w.as_int()),
        ensures
            final(self).x.as_int() == old(self).x.as_int() + rhs.x.as_int(),
            final(self).y.as_int() == old(self).y.as_int() + rhs.y.as_int(),
            final(self).z.as_int() == old(self).z.as_int() + rhs.z.as_int(),
            final(self).w.as_int() == old(self).w.as_int() + rhs.w.as_int(),
    {
        self.x = self.x.add(rhs.x);
        self.y = self.y.add(rhs.y);
        self.z = self.z.add(rhs.z);
        self.w = self.w.add(rhs.w);
    }

    /// In-place component-wise subtraction.
    pub fn sub_assign(&mut self, rhs: Vector4<T>)
        requires
            fits::<T>(old(self).x.as_int() - rhs.x.as_int()),
            fits::<T>(old(self).y.as_int() - rhs.y.as_int()),
            fits::<T>(old(self).z.as_int() - rhs.z.as_int()),
            fits::<T>(old(self).w.as_int() - rhs.w.as_int()),
        ensures
            final(self).x.as_int() == old(self).x.as_int() - rhs.x.as_int(),
            final(self).y.as_int() == old(self).y.as_int() - rhs.y.as_int(),
            final(self).z.as_int() == old(self).z.as_int() - rhs.z.as_int(),
            final(self).w.as_int() == old(self).w.as_int() - rhs.w.as_int(),
    {
        self.x = self.x.sub(rhs.x);
        self.y = self.y.sub(rhs.y);
        self.z = self.z.sub(rhs.z);
        self.w = self.w.sub(rhs.w);
    }

    /// In-place component-wise multiplication.
    pub fn mul_assign(&mut self, rhs: Vector4<T>)
        requires
            fits::<T>(old(self).x.as_int() * rhs.x.as_int()),
            fits::<T>(old(self).y.as_int() * rhs.y.as_int()),
            fits::<T>(old(self).z.as_int() * rhs.z.as_int()),
            fits::<T>(old(self).w.as_int() * rhs.w.as_int()),
        ensures
            final(self).x.as_int() == old(self).x.as_int() * rhs.x.as_int(),
            final(self).y.as_int() == old(self).y.as_int() * rhs.y.as_int(),
            final(self).z.as_int() == old(self).z.as_int() * rhs.z.as_int(),
            final(self).w.as_int() == old(self).w.as_int() * rhs.w.as_int(),
    {
        self.x = self.x.mul(rhs.x);
        self.y = self.y.mul(rhs.y);
        self.z = self.z.mul(rhs.z);
        self.w = self.w.mul(rhs.w);
    }

    /// In-place component-wise division.
    pub fn div_assign(&mut self, rhs: Vector4<T>)
        requires
            rhs.x.as_int() != 0,
            rhs.y.as_int() != 0,
            rhs.z.as_int() != 0,
            rhs.w.as_int() != 0,
            fits::<T>(trunc_div(old(self).x.as_int(), rhs.x.as_int())),
            fits::<T>(trunc_div(old(self).y.as_int(), rhs.y.as_int())),
            fits::<T>(trunc_div(old(self).z.as_int(), rhs.z.as_int())),
            fits::<T>(trunc_div(old(self).w.as_int(), rhs.w.as_int())),
        ensures
            final(self).x.as_int() == trunc_div(old(self).x.as_int(), rhs.x.as_int()),
            final(self).y.as_int() == trunc_div(old(self).y.as_int(), rhs.y.as_int()),
            final(self).z.as_int() == trunc_div(old(self).z.as_int(), rhs.z.as_int()),
            final(self).w.as_int() == trunc_div(old(self).w.as_int(), rhs.w.as_int()),
    {
        self.x = self.x.div(rhs.x);
        self.y = self.y.div(rhs.y);
        self.z = self.z.div(rhs.z);
        self.w = self.w.div(rhs.w);
    }

    /// In-place addition of a broadcast scalar.
    pub fn add_assign_scalar(&mut self, rhs: T)
        requires
            fits::<T>(old(self).x.as_int() + rhs.as_int()),
            fits::<T>(old(self).y.as_int() + rhs.as_int()),
            fits::<T>(old(self).z.as_int() + rhs.as_int()),
            fits::<T>(old(self).w.as_int() + rhs.as_int()),
        ensures
            final(self).x.as_int() == old(self).x.as_int() + rhs.as_int(),
            final(self).y.as_int() == old(self).y.as_int() + rhs.as_int(),
            final(self).z.as_int() == old(self).z.as_int() + rhs.as_int(),
            final(self).w.as_int() == old(self).w.as_int() + rhs.as_int(),
    {
        self.x = self.x.add(rhs);
        self.y = self.y.add(rhs);
        self.z = self.z.add(rhs);
        self.w = self.w.add(rhs);
    }

    /// In-place subtraction of a broadcast scalar.
    pub fn sub_assign_scalar(&mut self, rhs: T)
        requires
            fits::<T>(old(self).x.as_int() - rhs.as_int()),
            fits::<T>(old(self).y.as_int() - rhs.as_int()),
            fits::<T>(old(self).z.as_int() - rhs.as_int()),
            fits::<T>(old(self).w.as_int() - rhs.as_int()),
        ensures
            final(self).x.as_int() == old(self).x.as_int() - rhs.as_int(),
            final(self).y.as_int() == old(self).y.as_int() - rhs.as_int(),
            final(self).z.as_int() == old(self).z.as_int() - rhs.as_int(),
            final(self).w.as_int() == old(self).w.as_int() - rhs.as_int(),
    {
        self.x = self.x.sub(rhs);
        self.y = self.y.sub(rhs);
        self.z = self.z.sub(rhs);
        self.w = self.w.sub(rhs);
    }

    /// In-place multiplication by a broadcast scalar.
    pub fn mul_assign_scalar(&mut self, rhs: T)
        requires
            fits::<T>(old(self).x.as_int() * rhs.as_int()),
            fits::<T>(old(self).y.as_int() * rhs.as_int()),
            fits::<T>(old(self).z.as_int() * rhs.as_int()),
            fits::<T>(old(self).w.as_int() * rhs.as_int()),
        ensures
            final(self).x.as_int() == old(self).x.as_int() * rhs.as_int(),
            final(self).y.as_int() == old(self).y.as_int() * rhs.as_int(),
            final(self).z.as_int() == old(self).z.as_int() * rhs.as_int(),
            final(self).w.as_int() == old(self).w.as_int() * rhs.as_int(),
    {
        self.x = self.x.mul(rhs);
        self.y = self.y.mul(rhs);
        self.z = self.z.mul(rhs);
        self.w = self.w.mul(rhs);
    }

    /// In-place division by a broadcast scalar.
    pub fn div_assign_scalar(&mut self, rhs: T)
        requires
            rhs.as_int() != 0,
            fits::<T>(trunc_div(old(self).x.as_int(), rhs.as_int())),
            fits::<T>(trunc_div(old(self).y.as_int(), rhs.as_int())),
            fits::<T>(trunc_div(old(self).z.as_int(), rhs.as_int())),
            fits::<T>(trunc_div(old(self).w.as_int(), rhs.as_int())),
        ensures
            final(self).x.as_int() == trunc_div(old(self).x.as_int(), rhs.as_int()),
            final(self).y.as_int() == trunc_div(old(self).y.as_int(), rhs.as_int()),
            final(self).z.as_int() == trunc_div(old(self).z.as_int(), rhs.as_int()),
            final(self).w.as_int() == trunc_div(old(self).w.as_int(), rhs.as_int()),
    {
        self.x = self.x.div(rhs);
        self.y = self.y.div(rhs);
        self.z = self.z.div(rhs);
        self.w = self.w.div(rhs);
    }
}

} // verus!
