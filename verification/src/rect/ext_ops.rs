//! Checked, saturating and wrapping arithmetic lifted to the rectangle
//! types by applying the vector operation to both corners. A checked
//! operation reports the first failing component, first corner before
//! second; saturating and wrapping operations always succeed.

use vstd::prelude::*;

use crate::scalar::{clamp_int, first_err, trunc_div, wrap_int, ArithError, Scalar};
use crate::vector::{Vector2, Vector3};
use crate::rect::{Rect2, Rect3};

verus! {

impl<T: Scalar> Rect2<T> {
    /// Corner-wise negation, each component clamped into the scalar range.
    pub fn saturating_neg(self) -> (r: Rect2<T>)
        ensures
            r.0.x.as_int() == clamp_int(-self.0.x.as_int(), T::min_spec(), T::max_spec()),
            r.0.y.as_int() == clamp_int(-self.0.y.as_int(), T::min_spec(), T::max_spec()),
            r.1.x.as_int() == clamp_int(-self.1.x.as_int(), T::min_spec(), T::max_spec()),
            r.1.y.as_int() == clamp_int(-self.1.y.as_int(), T::min_spec(), T::max_spec()),
    {
        Rect2(self.0.saturating_neg(), self.1.saturating_neg())
    }

    /// Corner-wise negation, each component wrapping around the scalar range.
    pub fn wrapping_neg(self) -> (r: Rect2<T>)
        ensures
            r.0.x.as_int() == wrap_int(-self.0.x.as_int(), T::min_spec(), T::max_spec()),
            r.0.y.as_int() == wrap_int(-self.0.y.as_int(), T::min_spec(), T::max_spec()),
            r.1.x.as_int() == wrap_int(-self.1.x.as_int(), T::min_spec(), T::max_spec()),
            r.1.y.as_int() == wrap_int(-self.1.y.as_int(), T::min_spec(), T::max_spec()),
    {
        Rect2(self.0.wrapping_neg(), self.1.wrapping_neg())
    }

    /// Multiplication of every component by a broadcast scalar, clamped into the scalar range.
    pub fn saturating_mul_scalar(self, rhs: T) -> (r: Rect2<T>)
        ensures
            r.0.x.as_int() == clamp_int(self.0.x.as_int() * rhs.as_int(), T::min_spec(), T::max_spec()),
            r.0.y.as_int() == clamp_int(self.0.y.as_int() * rhs.as_int(), T::min_spec(), T::max_spec()),
            r.1.x.as_int() == clamp_int(self.1.x.as_int() * rhs.as_int(), T::min_spec(), T::max_spec()),
            r.1.y.as_int() == clamp_int(self.1.y.as_int() * rhs.as_int(), T::min_spec(), T::max_spec()),
    {
        Rect2(self.0.saturating_mul_scalar(rhs), self.1.saturating_mul_scalar(rhs))
    }

    /// Multiplication of every component by a broadcast scalar, wrapping around the scalar range.
    pub fn wrapping_mul_scalar(self, rhs: T) -> (r: Rect2<T>)
        ensures
            r.0.x.as_int() == wrap_int(self.0.x.as_int() * rhs.as_int(), T::min_spec(), T::max_spec()),
            r.0.y.as_int() == wrap_int(self.0.y.as_int() * rhs.as_int(), T::min_spec(), T::max_spec()),
            r.1.x.as_int() == wrap_int(self.1.x.as_int() * rhs.as_int(), T::min_spec(), T::max_spec()),
            r.1.y.as_int() == wrap_int(self.1.y.as_int() * rhs.as_int(), T::min_spec(), T::max_spec()),
    {
        Rect2(self.0.wrapping_mul_scalar(rhs), self.1.wrapping_mul_scalar(rhs))
    }

    /// Addition of a vector to both corners, each component clamped into the scalar range.
    pub fn saturating_add(self, rhs: Vector2<T>) -> (r: Rect2<T>)
        ensures
            r.0.x.as_int() == clamp_int(self.0.x.as_int() + rhs.x.as_int(), T::min_spec(), T::max_spec()),
            r.0.y.as_int() == clamp_int(self.0.y.as_int() + rhs.y.as_int(), T::min_spec(), T::max_spec()),
            r.1.x.as_int() == clamp_int(self.1.x.as_int() + rhs.x.as_int(), T::min_spec(), T::max_spec()),
            r.1.y.as_int() == clamp_int(self.1.y.as_int() + rhs.y.as_int(), T::min_spec(), T::max_spec()),
    {
        Rect2(self.0.saturating_add(rhs), self.1.saturating_add(rhs))
    }

    /// Subtraction of a vector from both corners, each component clamped into the scalar range.
    pub fn saturating_sub(self, rhs: Vector2<T>) -> (r: Rect2<T>)
        ensures
            r.0.x.as_int() == clamp_int(self.0.x.as_int() - rhs.x.as_int(), T::min_spec(), T::max_spec()),
            r.0.y.as_int() == clamp_int(self.0.y.as_int() - rhs.y.as_int(), T::min_spec(), T::max_spec()),
            r.1.x.as_int() == clamp_int(self.1.x.as_int() - rhs.x.as_int(), T::min_spec(), T::max_spec()),
            r.1.y.as_int() == clamp_int(self.1.y.as_int() - rhs.y.as_int(), T::min_spec(), T::max_spec()),
    {
        Rect2(self.0.saturating_sub(rhs), self.1.saturating_sub(rhs))
    }

    /// Multiplication of both corners by a vector, each component clamped into the scalar range.
    pub fn saturating_mul(self, rhs: Vector2<T>) -> (r: Rect2<T>)
        ensures
            r.0.x.as_int() == clamp_int(self.0.x.as_int() * rhs.x.as_int(), T::min_spec(), T::max_spec()),
            r.0.y.as_int() == clamp_int(self.0.y.as_int() * rhs.y.as_int(), T::min_spec(), T::max_spec()),
            r.1.x.as_int() == clamp_int(self.1.x.as_int() * rhs.x.as_int(), T::min_spec(), T::max_spec()),
            r.1.y.as_int() == clamp_int(self.1.y.as_int() * rhs.y.as_int(), T::min_spec(), T::max_spec()),
    {
        Rect2(self.0.saturating_mul(rhs), self.1.saturating_mul(rhs))
    }

    /// Addition of a vector to both corners, each component wrapping around the scalar range.
    pub fn wrapping_add(self, rhs: Vector2<T>) -> (r: Rect2<T>)
        ensures
            r.0.x.as_int() == wrap_int(self.0.x.as_int() + rhs.x.as_int(), T::min_spec(), T::max_spec()),
            r.0.y.as_int() == wrap_int(self.0.y.as_int() + rhs.y.as_int(), T::min_spec(), T::max_spec()),
            r.1.x.as_int() == wrap_int(self.1.x.as_int() + rhs.x.as_int(), T::min_spec(), T::max_spec()),
            r.1.y.as_int() == wrap_int(self.1.y.as_int() + rhs.y.as_int(), T::min_spec(), T::max_spec()),
    {
        Rect2(self.0.wrapping_add(rhs), self.1.wrapping_add(rhs))
    }

    /// Subtraction of a vector from both corners, each component wrapping around the scalar range.
    pub fn wrapping_sub(self, rhs: Vector2<T>) -> (r: Rect2<T>)
        ensures
            r.0.x.as_int() == wrap_int(self.0.x.as_int() - rhs.x.as_int(), T::min_spec(), T::max_spec()),
            r.0.y.as_int() == wrap_int(self.0.y.as_int() - rhs.y.as_int(), T::min_spec(), T::max_spec()),
            r.1.x.as_int() == wrap_int(self.1.x.as_int() - rhs.x.as_int(), T::min_spec(), T::max_spec()),
            r.1.y.as_int() == wrap_int(self.1.y.as_int() - rhs.y.as_int(), T::min_spec(), T::max_spec()),
    {
        Rect2(self.0.wrapping_sub(rhs), self.1.wrapping_sub(rhs))
    }

    /// Multiplication of both corners by a vector, each component wrapping around the scalar range.
    pub fn wrapping_mul(self, rhs: Vector2<T>) -> (r: Rect2<T>)
        ensures
            r.0.x.as_int() == wrap_int(self.0.x.as_int() * rhs.x.as_int(), T::min_spec(), T::max_spec()),
            r.0.y.as_int() == wrap_int(self.0.y.as_int() * rhs.y.as_int(), T::min_spec(), T::max_spec()),
            r.1.x.as_int() == wrap_int(self.1.x.as_int() * rhs.x.as_int(), T::min_spec(), T::max_spec()),
            r.1.y.as_int() == wrap_int(self.1.y.as_int() * rhs.y.as_int(), T::min_spec(), T::max_spec()),
    {
        Rect2(self.0.wrapping_mul(rhs), self.1.wrapping_mul(rhs))
    }

    /// Checked corner-wise negation.
    pub fn try_neg(self) -> (r: Result<Rect2<T>, ArithError>)
        ensures
            match r {
                Ok(v) => self.0.try_neg_err() is None && self.1.try_neg_err() is None
                    && v.0.x.as_int() == -self.0.x.as_int()
                    && v.0.y.as_int() == -self.0.y.as_int()
                    && v.1.x.as_int() == -self.1.x.as_int()
                    && v.1.y.as_int() == -self.1.y.as_int(),
                Err(e) => first_err(self.0.try_neg_err(), self.1.try_neg_err()) == Some(e),
            },
    {
        let p0 = match self.0.try_neg() {
            Ok(v) => v,
            Err(e) => {
                return Err(e);
            },
        };
        let p1 = match self.1.try_neg() {
            Ok(v) => v,
            Err(e) => {
                return Err(e);
            },
        };
        Ok(Rect2(p0, p1))
    }

    /// Checked addition of a vector to both corners.
    pub fn try_add(self, rhs: Vector2<T>) -> (r: Result<Rect2<T>, ArithError>)
        ensures
            match r {
                Ok(v) => self.0.try_add_err(rhs) is None && self.1.try_add_err(rhs) is None
                    && v.0.x.as_int() == self.0.x.as_int() + rhs.x.as_int()
                    && v.0.y.as_int() == self.0.y.as_int() + rhs.y.as_int()
                    && v.1.x.as_int() == self.1.x.as_int() + rhs.x.as_int()
                    && v.1.y.as_int() == self.1.y.as_int() + rhs.y.as_int(),
                Err(e) => first_err(self.0.try_add_err(rhs), self.1.try_add_err(rhs)) == Some(e),
            },
    {
        let p0 = match self.0.try_add(rhs) {
            Ok(v) => v,
            Err(e) => {
                return Err(e);
            },
        };
        let p1 = match self.1.try_add(rhs) {
            Ok(v) => v,
            Err(e) => {
                return Err(e);
            },
        };
        Ok(Rect2(p0, p1))
    }

    /// Checked subtraction of a vector from both corners.
    pub fn try_sub(self, rhs: Vector2<T>) -> (r: Result<Rect2<T>, ArithError>)
        ensures
            match r {
                Ok(v) => self.0.try_sub_err(rhs) is None && self.1.try_sub_err(rhs) is None
                    && v.0.x.as_int() == self.0.x.as_int() - rhs.x.as_int()
                    && v.0.y.as_int() == self.0.y.as_int() - rhs.y.as_int()
                    && v.1.x.as_int() == self.1.x.as_int() - rhs.x.as_int()
                    && v.1.y.as_int() == self.1.y.as_int() - rhs.y.as_int(),
                Err(e) => first_err(self.0.try_sub_err(rhs), self.1.try_sub_err(rhs)) == Some(e),
            },
    {
        let p0 = match self.0.try_sub(rhs) {
            Ok(v) => v,
            Err(e) => {
                return Err(e);
            },
        };
        let p1 = match self.1.try_sub(rhs) {
            Ok(v) => v,
            Err(e) => {
                return Err(e);
            },
        };
        Ok(Rect2(p0, p1))
    }

    /// Checked multiplication of both corners by a vector.
    pub fn try_mul(self, rhs: Vector2<T>) -> (r: Result<Rect2<T>, ArithError>)
        ensures
            match r {
                Ok(v) => self.0.try_mul_err(rhs) is None && self.1.try_mul_err(rhs) is None
                    && v.0.x.as_int() == self.0.x.as_int() * rhs.x.as_int()
                    && v.0.y.as_int() == self.0.y.as_int() * rhs.y.as_int()
                    && v.1.x.as_int() == self.1.x.as_int() * rhs.x.as_int()
                    && v.1.y.as_int() == self.1.y.as_int() * rhs.y.as_int(),
                Err(e) => first_err(self.0.try_mul_err(rhs), self.1.try_mul_err(rhs)) == Some(e),
            },
    {
        let p0 = match self.0.try_mul(rhs) {
            Ok(v) => v,
            Err(e) => {
                return Err(e);
            },
        };
        let p1 = match self.1.try_mul(rhs) {
            Ok(v) => v,
            Err(e) => {
                return Err(e);
            },
        };
        Ok(Rect2(p0, p1))
    }

    /// Checked multiplication of every component by a broadcast scalar.
    pub fn try_mul_scalar(self, rhs: T) -> (r: Result<Rect2<T>, ArithError>)
        ensures
            match r {
                Ok(v) => self.0.try_mul_scalar_err(rhs) is None && self.1.try_mul_scalar_err(rhs) is None
                    && v.0.x.as_int() == self.0.x.as_int() * rhs.as_int()
                    && v.0.y.as_int() == self.0.y.as_int() * rhs.as_int()
                    && v.1.x.as_int() == self.1.x.as_int() * rhs.as_int()
                    && v.1.y.as_int() == self.1.y.as_int() * rhs.as_int(),
                Err(e) => first_err(self.0.try_mul_scalar_err(rhs), self.1.try_mul_scalar_err(rhs)) == Some(e),
            },
    {
        let p0 = match self.0.try_mul_scalar(rhs) {
            Ok(v) => v,
            Err(e) => {
                return Err(e);
            },
        };
        let p1 = match self.1.try_mul_scalar(rhs) {
            Ok(v) => v,
            Err(e) => {
                return Err(e);
            },
        };
        Ok(Rect2(p0, p1))
    }

    /// Checked division of both corners by a vector, truncating toward zero.
    pub fn try_div(self, rhs: Vector2<T>) -> (r: Result<Rect2<T>, ArithError>)
        ensures
            match r {
                Ok(v) => self.0.try_div_err(rhs) is None && self.1.try_div_err(rhs) is None
                    && v.0.x.as_int() == trunc_div(self.0.x.as_int(), rhs.x.as_int())
                    && v.0.y.as_int() == trunc_div(self.0.y.as_int(), rhs.y.as_int())
                    && v.1.x.as_int() == trunc_div(self.1.x.as_int(), rhs.x.as_int())
                    && v.1.y.as_int() == trunc_div(self.1.y.as_int(), rhs.y.as_int()),
                Err(e) => first_err(self.0.try_div_err(rhs), self.1.try_div_err(rhs)) == Some(e),
            },
    {
        let p0 = match self.0.try_div(rhs) {
            Ok(v) => v,
            Err(e) => {
                return Err(e);
            },
        };
        let p1 = match self.1.try_div(rhs) {
            Ok(v) => v,
            Err(e) => {
                return Err(e);
            },
        };
        Ok(Rect2(p0, p1))
    }

    /// Checked division of every component by a broadcast scalar, truncating toward zero.
    pub fn try_div_scalar(self, rhs: T) -> (r: Result<Rect2<T>, ArithError>)
        ensures
            match r {
                Ok(v) => self.0.try_div_scalar_err(rhs) is None && self.1.try_div_scalar_err(rhs) is None
                    && v.0.x.as_int() == trunc_div(self.0.x.as_int(), rhs.as_int())
                    && v.0.y.as_int() == trunc_div(self.0.y.as_int(), rhs.as_int())
                    && v.1.x.as_int() == trunc_div(self.1.x.as_int(), rhs.as_int())
                    && v.1.y.as_int() == trunc_div(self.1.y.as_int(), rhs.as_int()),
                Err(e) => first_err(self.0.try_div_scalar_err(rhs), self.1.try_div_scalar_err(rhs)) == Some(e),
            },
    {
        let p0 = match self.0.try_div_scalar(rhs) {
            Ok(v) => v,
            Err(e) => {
                return Err(e);
            },
        };
        let p1 = match self.1.try_div_scalar(rhs) {
            Ok(v) => v,
            Err(e) => {
                return Err(e);
            },
        };
        Ok(Rect2(p0, p1))
    }
}

impl<T: Scalar> Rect3<T> {
    /// Corner-wise negation, each component clamped into the scalar range.
    pub fn saturating_neg(self) -> (r: Rect3<T>)
        ensures
            r.0.x.as_int() == clamp_int(-self.0.x.as_int(), T::min_spec(), T::max_spec()),
            r.0.y.as_int() == clamp_int(-self.0.y.as_int(), T::min_spec(), T::max_spec()),
            r.0.z.as_int() == clamp_int(-self.0.z.as_int(), T::min_spec(), T::max_spec()),
            r.1.x.as_int() == clamp_int(-self.1.x.as_int(), T::min_spec(), T::max_spec()),
            r.1.y.as_int() == clamp_int(-self.1.y.as_int(), T::min_spec(), T::max_spec()),
            r.1.z.as_int() == clamp_int(-self.1.z.as_int(), T::min_spec(), T::max_spec()),
    {
        Rect3(self.0.saturating_neg(), self.1.saturating_neg())
    }

    /// Corner-wise negation, each component wrapping around the scalar range.
    pub fn wrapping_neg(self) -> (r: Rect3<T>)
        ensures
            r.0.x.as_int() == wrap_int(-self.0.x.as_int(), T::min_spec(), T::max_spec()),
            r.0.y.as_int() == wrap_int(-self.0.y.as_int(), T::min_spec(), T::max_spec()),
            r.0.z.as_int() == wrap_int(-self.0.z.as_int(), T::min_spec(), T::max_spec()),
            r.1.x.as_int() == wrap_int(-self.1.x.as_int(), T::min_spec(), T::max_spec()),
            r.1.y.as_int() == wrap_int(-self.1.y.as_int(), T::min_spec(), T::max_spec()),
            r.1.z.as_int() == wrap_int(-self.1.z.as_int(), T::min_spec(), T::max_spec()),
    {
        Rect3(self.0.wrapping_neg(), self.1.wrapping_neg())
    }

    /// Multiplication of every component by a broadcast scalar, clamped into the scalar range.
    pub fn saturating_mul_scalar(self, rhs: T) -> (r: Rect3<T>)
        ensures
            r.0.x.as_int() == clamp_int(self.0.x.as_int() * rhs.as_int(), T::min_spec(), T::max_spec()),
            r.0.y.as_int() == clamp_int(self.0.y.as_int() * rhs.as_int(), T::min_spec(), T::max_spec()),
            r.0.z.as_int() == clamp_int(self.0.z.as_int() * rhs.as_int(), T::min_spec(), T::max_spec()),
            r.1.x.as_int() == clamp_int(self.1.x.as_int() * rhs.as_int(), T::min_spec(), T::max_spec()),
            r.1.y.as_int() == clamp_int(self.1.y.as_int() * rhs.as_int(), T::min_spec(), T::max_spec()),
            r.1.z.as_int() == clamp_int(self.1.z.as_int() * rhs.as_int(), T::min_spec(), T::max_spec()),
    {
        Rect3(self.0.saturating_mul_scalar(rhs), self.1.saturating_mul_scalar(rhs))
    }

    /// Multiplication of every component by a broadcast scalar, wrapping around the scalar range.
    pub fn wrapping_mul_scalar(self, rhs: T) -> (r: Rect3<T>)
        ensures
            r.0.x.as_int() == wrap_int(self.0.x.as_int() * rhs.as_int(), T::min_spec(), T::max_spec()),
            r.0.y.as_int() == wrap_int(self.0.y.as_int() * rhs.as_int(), T::min_spec(), T::max_spec()),
            r.0.z.as_int() == wrap_int(self.0.z.as_int() * rhs.as_int(), T::min_spec(), T::max_spec()),
            r.1.x.as_int() == wrap_int(self.1.x.as_int() * rhs.as_int(), T::min_spec(), T::max_spec()),
            r.1.y.as_int() == wrap_int(self.1.y.as_int() * rhs.as_int(), T::min_spec(), T::max_spec()),
            r.1.z.as_int() == wrap_int(self.1.z.as_int() * rhs.as_int(), T::min_spec(), T::max_spec()),
    {
        Rect3(self.0.wrapping_mul_scalar(rhs), self.1.wrapping_mul_scalar(rhs))
    }

    /// Addition of a vector to both corners, each component clamped into the scalar range.
    pub fn saturating_add(self, rhs: Vector3<T>) -> (r: Rect3<T>)
        ensures
            r.0.x.as_int() == clamp_int(self.0.x.as_int() + rhs.x.as_int(), T::min_spec(), T::max_spec()),
            r.0.y.as_int() == clamp_int(self.0.y.as_int() + rhs.y.as_int(), T::min_spec(), T::max_spec()),
            r.0.z.as_int() == clamp_int(self.0.z.as_int() + rhs.z.as_int(), T::min_spec(), T::max_spec()),
            r.1.x.as_int() == clamp_int(self.1.x.as_int() + rhs.x.as_int(), T::min_spec(), T::max_spec()),
            r.1.y.as_int() == clamp_int(self.1.y.as_int() + rhs.y.as_int(), T::min_spec(), T::max_spec()),
            r.1.z.as_int() == clamp_int(self.1.z.as_int() + rhs.z.as_int(), T::min_spec(), T::max_spec()),
    {
        Rect3(self.0.saturating_add(rhs), self.1.saturating_add(rhs))
    }

    /// Subtraction of a vector from both corners, each component clamped into the scalar range.
    pub fn saturating_sub(self, rhs: Vector3<T>) -> (r: Rect3<T>)
        ensures
            r.0.x.as_int() == clamp_int(self.0.x.as_int() - rhs.x.as_int(), T::min_spec(), T::max_spec()),
            r.0.y.as_int() == clamp_int(self.0.y.as_int() - rhs.y.as_int(), T::min_spec(), T::max_spec()),
            r.0.z.as_int() == clamp_int(self.0.z.as_int() - rhs.z.as_int(), T::min_spec(), T::max_spec()),
            r.1.x.as_int() == clamp_int(self.1.x.as_int() - rhs.x.as_int(), T::min_spec(), T::max_spec()),
            r.1.y.as_int() == clamp_int(self.1.y.as_int() - rhs.y.as_int(), T::min_spec(), T::max_spec()),
            r.1.z.as_int() == clamp_int(self.1.z.as_int() - rhs.z.as_int(), T::min_spec(), T::max_spec()),
    {
        Rect3(self.0.saturating_sub(rhs), self.1.saturating_sub(rhs))
    }

    /// Multiplication of both corners by a vector, each component clamped into the scalar range.
    pub fn saturating_mul(self, rhs: Vector3<T>) -> (r: Rect3<T>)
        ensures
            r.0.x.as_int() == clamp_int(self.0.x.as_int() * rhs.x.as_int(), T::min_spec(), T::max_spec()),
            r.0.y.as_int() == clamp_int(self.0.y.as_int() * rhs.y.as_int(), T::min_spec(), T::max_spec()),
            r.0.z.as_int() == clamp_int(self.0.z.as_int() * rhs.z.as_int(), T::min_spec(), T::max_spec()),
            r.1.x.as_int() == clamp_int(self.1.x.as_int() * rhs.x.as_int(), T::min_spec(), T::max_spec()),
            r.1.y.as_int() == clamp_int(self.1.y.as_int() * rhs.y.as_int(), T::min_spec(), T::max_spec()),
            r.1.z.as_int() == clamp_int(self.1.z.as_int() * rhs.z.as_int(), T::min_spec(), T::max_spec()),
    {
        Rect3(self.0.saturating_mul(rhs), self.1.saturating_mul(rhs))
    }

    /// Addition of a vector to both corners, each component wrapping around the scalar range.
    pub fn wrapping_add(self, rhs: Vector3<T>) -> (r: Rect3<T>)
        ensures
            r.0.x.as_int() == wrap_int(self.0.x.as_int() + rhs.x.as_int(), T::min_spec(), T::max_spec()),
            r.0.y.as_int() == wrap_int(self.0.y.as_int() + rhs.y.as_int(), T::min_spec(), T::max_spec()),
            r.0.z.as_int() == wrap_int(self.0.z.as_int() + rhs.z.as_int(), T::min_spec(), T::max_spec()),
            r.1.x.as_int() == wrap_int(self.1.x.as_int() + rhs.x.as_int(), T::min_spec(), T::max_spec()),
            r.1.y.as_int() == wrap_int(self.1.y.as_int() + rhs.y.as_int(), T::min_spec(), T::max_spec()),
            r.1.z.as_int() == wrap_int(self.1.z.as_int() + rhs.z.as_int(), T::min_spec(), T::max_spec()),
    {
        Rect3(self.0.wrapping_add(rhs), self.1.wrapping_add(rhs))
    }

    /// Subtraction of a vector from both corners, each component wrapping around the scalar range.
    pub fn wrapping_sub(self, rhs: Vector3<T>) -> (r: Rect3<T>)
        ensures
            r.0.x.as_int() == wrap_int(self.0.x.as_int() - rhs.x.as_int(), T::min_spec(), T::max_spec()),
            r.0.y.as_int() == wrap_int(self.0.y.as_int() - rhs.y.as_int(), T::min_spec(), T::max_spec()),
            r.0.z.as_int() == wrap_int(self.0.z.as_int() - rhs.z.as_int(), T::min_spec(), T::max_spec()),
            r.1.x.as_int() == wrap_int(self.1.x.as_int() - rhs.x.as_int(), T::min_spec(), T::max_spec()),
            r.1.y.as_int() == wrap_int(self.1.y.as_int() - rhs.y.as_int(), T::min_spec(), T::max_spec()),
            r.1.z.as_int() == wrap_int(self.1.z.as_int() - rhs.z.as_int(), T::min_spec(), T::max_spec()),
    {
        Rect3(self.0.wrapping_sub(rhs), self.1.wrapping_sub(rhs))
    }

    /// Multiplication of both corners by a vector, each component wrapping around the scalar range.
    pub fn wrapping_mul(self, rhs: Vector3<T>) -> (r: Rect3<T>)
        ensures
            r.0.x.as_int() == wrap_int(self.0.x.as_int() * rhs.x.as_int(), T::min_spec(), T::max_spec()),
            r.0.y.as_int() == wrap_int(self.0.y.as_int() * rhs.y.as_int(), T::min_spec(), T::max_spec()),
            r.0.z.as_int() == wrap_int(self.0.z.as_int() * rhs.z.as_int(), T::min_spec(), T::max_spec()),
            r.1.x.as_int() == wrap_int(self.1.x.as_int() * rhs.x.as_int(), T::min_spec(), T::max_spec()),
            r.1.y.as_int() == wrap_int(self.1.y.as_int() * rhs.y.as_int(), T::min_spec(), T::max_spec()),
            r.1.z.as_int() == wrap_int(self.1.z.as_int() * rhs.z.as_int(), T::min_spec(), T::max_spec()),
    {
        Rect3(self.0.wrapping_mul(rhs), self.1.wrapping_mul(rhs))
    }

    /// Checked corner-wise negation.
    pub fn try_neg(self) -> (r: Result<Rect3<T>, ArithError>)
        ensures
            match r {
                Ok(v) => self.0.try_neg_err() is None && self.1.try_neg_err() is None
                    && v.0.x.as_int() == -self.0.x.as_int()
                    && v.0.y.as_int() == -self.0.y.as_int()
                    && v.0.z.as_int() == -self.0.z.as_int()
                    && v.1.x.as_int() == -self.1.x.as_int()
                    && v.1.y.as_int() == -self.1.y.as_int()
                    && v.1.z.as_int() == -self.1.z.as_int(),
                Err(e) => first_err(self.0.try_neg_err(), self.1.try_neg_err()) == Some(e),
            },
    {
        let p0 = match self.0.try_neg() {
            Ok(v) => v,
            Err(e) => {
                return Err(e);
            },
        };
        let p1 = match self.1.try_neg() {
            Ok(v) => v,
            Err(e) => {
                return Err(e);
            },
        };
        Ok(Rect3(p0, p1))
    }

    /// Checked addition of a vector to both corners.
    pub fn try_add(self, rhs: Vector3<T>) -> (r: Result<Rect3<T>, ArithError>)
        ensures
            match r {
                Ok(v) => self.0.try_add_err(rhs) is None && self.1.try_add_err(rhs) is None
                    && v.0.x.as_int() == self.0.x.as_int() + rhs.x.as_int()
                    && v.0.y.as_int() == self.0.y.as_int() + rhs.y.as_int()
                    && v.0.z.as_int() == self.0.z.as_int() + rhs.z.as_int()
                    && v.1.x.as_int() == self.1.x.as_int() + rhs.x.as_int()
                    && v.1.y.as_int() == self.1.y.as_int() + rhs.y.as_int()
                    && v.1.z.as_int() == self.1.z.as_int() + rhs.z.as_int(),
                Err(e) => first_err(self.0.try_add_err(rhs), self.1.try_add_err(rhs)) == Some(e),
            },
    {
        let p0 = match self.0.try_add(rhs) {
            Ok(v) => v,
            Err(e) => {
                return Err(e);
            },
        };
        let p1 = match self.1.try_add(rhs) {
            Ok(v) => v,
            Err(e) => {
                return Err(e);
            },
        };
        Ok(Rect3(p0, p1))
    }

    /// Checked subtraction of a vector from both corners.
    pub fn try_sub(self, rhs: Vector3<T>) -> (r: Result<Rect3<T>, ArithError>)
        ensures
            match r {
                Ok(v) => self.0.try_sub_err(rhs) is None && self.1.try_sub_err(rhs) is None
                    && v.0.x.as_int() == self.0.x.as_int() - rhs.x.as_int()
                    && v.0.y.as_int() == self.0.y.as_int() - rhs.y.as_int()
                    && v.0.z.as_int() == self.0.z.as_int() - rhs.z.as_int()
                    && v.1.x.as_int() == self.1.x.as_int() - rhs.x.as_int()
                    && v.1.y.as_int() == self.1.y.as_int() - rhs.y.as_int()
                    && v.1.z.as_int() == self.1.z.as_int() - rhs.z.as_int(),
                Err(e) => first_err(self.0.try_sub_err(rhs), self.1.try_sub_err(rhs)) == Some(e),
            },
    {
        let p0 = match self.0.try_sub(rhs) {
            Ok(v) => v,
            Err(e) => {
                return Err(e);
            },
        };
        let p1 = match self.1.try_sub(rhs) {
            Ok(v) => v,
            Err(e) => {
                return Err(e);
            },
        };
        Ok(Rect3(p0, p1))
    }

    /// Checked multiplication of both corners by a vector.
    pub fn try_mul(self, rhs: Vector3<T>) -> (r: Result<Rect3<T>, ArithError>)
        ensures
            match r {
                Ok(v) => self.0.try_mul_err(rhs) is None && self.1.try_mul_err(rhs) is None
                    && v.0.x.as_int() == self.0.x.as_int() * rhs.x.as_int()
                    && v.0.y.as_int() == self.0.y.as_int() * rhs.y.as_int()
                    && v.0.z.as_int() == self.0.z.as_int() * rhs.z.as_int()
                    && v.1.x.as_int() == self.1.x.as_int() * rhs.x.as_int()
                    && v.1.y.as_int() == self.1.y.as_int() * rhs.y.as_int()
                    && v.1.z.as_int() == self.1.z.as_int() * rhs.z.as_int(),
                Err(e) => first_err(self.0.try_mul_err(rhs), self.1.try_mul_err(rhs)) == Some(e),
            },
    {
        let p0 = match self.0.try_mul(rhs) {
            Ok(v) => v,
            Err(e) => {
                return Err(e);
            },
        };
        let p1 = match self.1.try_mul(rhs) {
            Ok(v) => v,
            Err(e) => {
                return Err(e);
            },
        };
        Ok(Rect3(p0, p1))
    }

    /// Checked multiplication of every component by a broadcast scalar.
    pub fn try_mul_scalar(self, rhs: T) -> (r: Result<Rect3<T>, ArithError>)
        ensures
            match r {
                Ok(v) => self.0.try_mul_scalar_err(rhs) is None && self.1.try_mul_scalar_err(rhs) is None
                    && v.0.x.as_int() == self.0.x.as_int() * rhs.as_int()
                    && v.0.y.as_int() == self.0.y.as_int() * rhs.as_int()
                    && v.0.z.as_int() == self.0.z.as_int() * rhs.as_int()
                    && v.1.x.as_int() == self.1.x.as_int() * rhs.as_int()
                    && v.1.y.as_int() == self.1.y.as_int() * rhs.as_int()
                    && v.1.z.as_int() == self.1.z.as_int() * rhs.as_int(),
                Err(e) => first_err(self.0.try_mul_scalar_err(rhs), self.1.try_mul_scalar_err(rhs)) == Some(e),
            },
    {
        let p0 = match self.0.try_mul_scalar(rhs) {
            Ok(v) => v,
            Err(e) => {
                return Err(e);
            },
        };
        let p1 = match self.1.try_mul_scalar(rhs) {
            Ok(v) => v,
            Err(e) => {
                return Err(e);
            },
        };
        Ok(Rect3(p0, p1))
    }

    /// Checked division of both corners by a vector, truncating toward zero.
    pub fn try_div(self, rhs: Vector3<T>) -> (r: Result<Rect3<T>, ArithError>)
        ensures
            match r {
                Ok(v) => self.0.try_div_err(rhs) is None && self.1.try_div_err(rhs) is None
                    && v.0.x.as_int() == trunc_div(self.0.x.as_int(), rhs.x.as_int())
                    && v.0.y.as_int() == trunc_div(self.0.y.as_int(), rhs.y.as_int())
                    && v.0.z.as_int() == trunc_div(self.0.z.as_int(), rhs.z.as_int())
                    && v.1.x.as_int() == trunc_div(self.1.x.as_int(), rhs.x.as_int())
                    && v.1.y.as_int() == trunc_div(self.1.y.as_int(), rhs.y.as_int())
                    && v.1.z.as_int() == trunc_div(self.1.z.as_int(), rhs.z.as_int()),
                Err(e) => first_err(self.0.try_div_err(rhs), self.1.try_div_err(rhs)) == Some(e),
            },
    {
        let p0 = match self.0.try_div(rhs) {
            Ok(v) => v,
            Err(e) => {
                return Err(e);
            },
        };
        let p1 = match self.1.try_div(rhs) {
            Ok(v) => v,
            Err(e) => {
                return Err(e);
            },
        };
        Ok(Rect3(p0, p1))
    }

    /// Checked division of every component by a broadcast scalar, truncating toward zero.
    pub fn try_div_scalar(self, rhs: T) -> (r: Result<Rect3<T>, ArithError>)
        ensures
            match r {
                Ok(v) => self.0.try_div_scalar_err(rhs) is None && self.1.try_div_scalar_err(rhs) is None
                    && v.0.x.as_int() == trunc_div(self.0.x.as_int(), rhs.as_int())
                    && v.0.y.as_int() == trunc_div(self.0.y.as_int(), rhs.as_int())
                    && v.0.z.as_int() == trunc_div(self.0.z.as_int(), rhs.as_int())
                    && v.1.x.as_int() == trunc_div(self.1.x.as_int(), rhs.as_int())
                    && v.1.y.as_int() == trunc_div(self.1.y.as_int(), rhs.as_int())
                    && v.1.z.as_int() == trunc_div(self.1.z.as_int(), rhs.as_int()),
                Err(e) => first_err(self.0.try_div_scalar_err(rhs), self.1.try_div_scalar_err(rhs)) == Some(e),
            },
    {
        let p0 = match self.0.try_div_scalar(rhs) {
            Ok(v) => v,
            Err(e) => {
                return Err(e);
            },
        };
        let p1 = match self.1.try_div_scalar(rhs) {
            Ok(v) => v,
            Err(e) => {
                return Err(e);
            },
        };
        Ok(Rect3(p0, p1))
    }
}

} // verus!
