//! Checked, saturating and wrapping arithmetic on the vector types. The
//! checked operations report the first failing component (in x, y, z, w
//! order) instead of an unconditional result; the saturating and wrapping
//! operations always succeed, each component independently clamping to or
//! wrapping around the scalar range.

use vstd::prelude::*;

use crate::scalar::{
    add_err, clamp_int, div_err, first_err, mul_err, neg_err, sub_err, trunc_div, wrap_int,
    ArithError, Scalar,
};
use crate::vector::{Vector2, Vector3, Vector4};

verus! {

impl<T: Scalar> Vector2<T> {
    /// The first failing component outcome of a checked negation, if any.
    pub open spec fn try_neg_err(self) -> Option<ArithError> {
        first_err(neg_err(self.x), neg_err(self.y))
    }

    /// The first failing component outcome of a checked addition, if any.
    pub open spec fn try_add_err(self, rhs: Vector2<T>) -> Option<ArithError> {
        first_err(add_err(self.x, rhs.x), add_err(self.y, rhs.y))
    }

    /// The first failing component outcome of a checked subtraction, if any.
    pub open spec fn try_sub_err(self, rhs: Vector2<T>) -> Option<ArithError> {
        first_err(sub_err(self.x, rhs.x), sub_err(self.y, rhs.y))
    }

    /// The first failing component outcome of a checked multiplication, if any.
    pub open spec fn try_mul_err(self, rhs: Vector2<T>) -> Option<ArithError> {
        first_err(mul_err(self.x, rhs.x), mul_err(self.y, rhs.y))
    }

    /// The first failing component outcome of a checked division, if any.
    pub open spec fn try_div_err(self, rhs: Vector2<T>) -> Option<ArithError> {
        first_err(div_err(self.x, rhs.x), div_err(self.y, rhs.y))
    }

    /// The first failing component outcome of a checked broadcast addition, if any.
    pub open spec fn try_add_scalar_err(self, rhs: T) -> Option<ArithError> {
        first_err(add_err(self.x, rhs), add_err(self.y, rhs))
    }

    /// The first failing component outcome of a checked broadcast subtraction, if any.
    pub open spec fn try_sub_scalar_err(self, rhs: T) -> Option<ArithError> {
        first_err(sub_err(self.x, rhs), sub_err(self.y, rhs))
    }

    /// The first failing component outcome of a checked broadcast multiplication, if any.
    pub open spec fn try_mul_scalar_err(self, rhs: T) -> Option<ArithError> {
        first_err(mul_err(self.x, rhs), mul_err(self.y, rhs))
    }

    /// The first failing component outcome of a checked broadcast division, if any.
    pub open spec fn try_div_scalar_err(self, rhs: T) -> Option<ArithError> {
        first_err(div_err(self.x, rhs), div_err(self.y, rhs))
    }

    /// Checked component-wise negation.
    pub fn try_neg(self) -> (r: Result<Vector2<T>, ArithError>)
        ensures
            match r {
                Ok(v) => self.try_neg_err() is None
                    && v.x.as_int() == -self.x.as_int()
                    && v.y.as_int() == -self.y.as_int(),
                Err(e) => self.try_neg_err() == Some(e),
            },
    {
        let x = match self.x.checked_neg() {
            Some(v) => v,
            None => {
                return Err(ArithError::Overflow);
            },
        };
        let y = match self.y.checked_neg() {
            Some(v) => v,
            None => {
                return Err(ArithError::Overflow);
            },
        };
        Ok(Vector2 { x, y })
    }

    /// Checked component-wise addition.
    pub fn try_add(self, rhs: Vector2<T>) -> (r: Result<Vector2<T>, ArithError>)
        ensures
            match r {
                Ok(v) => self.try_add_err(rhs) is None
                    && v.x.as_int() == self.x.as_int() + rhs.x.as_int()
                    && v.y.as_int() == self.y.as_int() + rhs.y.as_int(),
                Err(e) => self.try_add_err(rhs) == Some(e),
            },
    {
        let x = match self.x.checked_add(rhs.x) {
            Some(v) => v,
            None => {
                return Err(ArithError::Overflow);
            },
        };
        let y = match self.y.checked_add(rhs.y) {
            Some(v) => v,
            None => {
                return Err(ArithError::Overflow);
            },
        };
        Ok(Vector2 { x, y })
    }

    /// Checked component-wise subtraction.
    pub fn try_sub(self, rhs: Vector2<T>) -> (r: Result<Vector2<T>, ArithError>)
        ensures
            match r {
                Ok(v) => self.try_sub_err(rhs) is None
                    && v.x.as_int() == self.x.as_int() - rhs.x.as_int()
                    && v.y.as_int() == self.y.as_int() - rhs.y.as_int(),
                Err(e) => self.try_sub_err(rhs) == Some(e),
            },
    {
        let x = match self.x.checked_sub(rhs.x) {
            Some(v) => v,
            None => {
                return Err(ArithError::Overflow);
            },
        };
        let y = match self.y.checked_sub(rhs.y) {
            Some(v) => v,
            None => {
                return Err(ArithError::Overflow);
            },
        };
        Ok(Vector2 { x, y })
    }

    /// Checked component-wise multiplication.
    pub fn try_mul(self, rhs: Vector2<T>) -> (r: Result<Vector2<T>, ArithError>)
        ensures
            match r {
                Ok(v) => self.try_mul_err(rhs) is None
                    && v.x.as_int() == self.x.as_int() * rhs.x.as_int()
                    && v.y.as_int() == self.y.as_int() * rhs.y.as_int(),
                Err(e) => self.try_mul_err(rhs) == Some(e),
            },
    {
        let x = match self.x.checked_mul(rhs.x) {
            Some(v) => v,
            None => {
                return Err(ArithError::Overflow);
            },
        };
        let y = match self.y.checked_mul(rhs.y) {
            Some(v) => v,
            None => {
                return Err(ArithError::Overflow);
            },
        };
        Ok(Vector2 { x, y })
    }

    /// Checked addition of a broadcast scalar.
    pub fn try_add_scalar(self, rhs: T) -> (r: Result<Vector2<T>, ArithError>)
        ensures
            match r {
                Ok(v) => self.try_add_scalar_err(rhs) is None
                    && v.x.as_int() == self.x.as_int() + rhs.as_int()
                    && v.y.as_int() == self.y.as_int() + rhs.as_int(),
                Err(e) => self.try_add_scalar_err(rhs) == Some(e),
            },
    {
        let x = match self.x.checked_add(rhs) {
            Some(v) => v,
            None => {
                return Err(ArithError::Overflow);
            },
        };
        let y = match self.y.checked_add(rhs) {
            Some(v) => v,
            None => {
                return Err(ArithError::Overflow);
            },
        };
        Ok(Vector2 { x, y })
    }

    /// Checked subtraction of a broadcast scalar.
    pub fn try_sub_scalar(self, rhs: T) -> (r: Result<Vector2<T>, ArithError>)
        ensures
            match r {
                Ok(v) => self.try_sub_scalar_err(rhs) is None
                    && v.x.as_int() == self.x.as_int() - rhs.as_int()
                    && v.y.as_int() == self.y.as_int() - rhs.as_int(),
                Err(e) => self.try_sub_scalar_err(rhs) == Some(e),
            },
    {
        let x = match self.x.checked_sub(rhs) {
            Some(v) => v,
            None => {
                return Err(ArithError::Overflow);
            },
        };
        let y = match self.y.checked_sub(rhs) {
            Some(v) => v,
            None => {
                return Err(ArithError::Overflow);
            },
        };
        Ok(Vector2 { x, y })
    }

    /// Checked multiplication by a broadcast scalar.
    pub fn try_mul_scalar(self, rhs: T) -> (r: Result<Vector2<T>, ArithError>)
        ensures
            match r {
                Ok(v) => self.try_mul_scalar_err(rhs) is None
                    && v.x.as_int() == self.x.as_int() * rhs.as_int()
                    && v.y.as_int() == self.y.as_int() * rhs.as_int(),
                Err(e) => self.try_mul_scalar_err(rhs) == Some(e),
            },
    {
        let x = match self.x.checked_mul(rhs) {
            Some(v) => v,
            None => {
                return Err(ArithError::Overflow);
            },
        };
        let y = match self.y.checked_mul(rhs) {
            Some(v) => v,
            None => {
                return Err(ArithError::Overflow);
            },
        };
        Ok(Vector2 { x, y })
    }

    /// Checked component-wise division, truncating toward zero.
    pub fn try_div(self, rhs: Vector2<T>) -> (r: Result<Vector2<T>, ArithError>)
        ensures
            match r {
                Ok(v) => self.try_div_err(rhs) is None
                    && v.x.as_int() == trunc_div(self.x.as_int(), rhs.x.as_int())
                    && v.y.as_int() == trunc_div(self.y.as_int(), rhs.y.as_int()),
                Err(e) => self.try_div_err(rhs) == Some(e),
            },
    {
        let x = match self.x.checked_div(rhs.x) {
            Some(v) => v,
            None => {
                return Err(
                    if rhs.x.is_zero() {
                        ArithError::DivideByZero
                    } else {
                        ArithError::Overflow
                    },
                );
            },
        };
        let y = match self.y.checked_div(rhs.y) {
            Some(v) => v,
            None => {
                return Err(
                    if rhs.y.is_zero() {
                        ArithError::DivideByZero
                    } else {
                        ArithError::Overflow
                    },
                );
            },
        };
        Ok(Vector2 { x, y })
    }

    /// Checked division by a broadcast scalar, truncating toward zero.
    pub fn try_div_scalar(self, rhs: T) -> (r: Result<Vector2<T>, ArithError>)
        ensures
            match r {
                Ok(v) => self.try_div_scalar_err(rhs) is None
                    && v.x.as_int() == trunc_div(self.x.as_int(), rhs.as_int())
                    && v.y.as_int() == trunc_div(self.y.as_int(), rhs.as_int()),
                Err(e) => self.try_div_scalar_err(rhs) == Some(e),
            },
    {
        let x = match self.x.checked_div(rhs) {
            Some(v) => v,
            None => {
                return Err(
                    if rhs.is_zero() {
                        ArithError::DivideByZero
                    } else {
                        ArithError::Overflow
                    },
                );
            },
        };
        let y = match self.y.checked_div(rhs) {
            Some(v) => v,
            None => {
                return Err(
                    if rhs.is_zero() {
                        ArithError::DivideByZero
                    } else {
                        ArithError::Overflow
                    },
                );
            },
        };
        Ok(Vector2 { x, y })
    }

    /// Component-wise negation, clamped into the scalar range.
    pub fn saturating_neg(self) -> (r: Vector2<T>)
        ensures
            r.x.as_int() == clamp_int(-self.x.as_int(), T::min_spec(), T::max_spec()),
            r.y.as_int() == clamp_int(-self.y.as_int(), T::min_spec(), T::max_spec()),
    {
        Vector2 { x: self.x.saturating_neg(), y: self.y.saturating_neg() }
    }

    /// Component-wise addition, each component clamped into the scalar range.
    pub fn saturating_add(self, rhs: Vector2<T>) -> (r: Vector2<T>)
        ensures
            r.x.as_int() == clamp_int(self.x.as_int() + rhs.x.as_int(), T::min_spec(), T::max_spec()),
            r.y.as_int() == clamp_int(self.y.as_int() + rhs.y.as_int(), T::min_spec(), T::max_spec()),
    {
        Vector2 { x: self.x.saturating_add(rhs.x), y: self.y.saturating_add(rhs.y) }
    }

    /// Component-wise subtraction, each component clamped into the scalar range.
    pub fn saturating_sub(self, rhs: Vector2<T>) -> (r: Vector2<T>)
        ensures
            r.x.as_int() == clamp_int(self.x.as_int() - rhs.x.as_int(), T::min_spec(), T::max_spec()),
            r.y.as_int() == clamp_int(self.y.as_int() - rhs.y.as_int(), T::min_spec(), T::max_spec()),
    {
        Vector2 { x: self.x.saturating_sub(rhs.x), y: self.y.saturating_sub(rhs.y) }
    }

    /// Component-wise multiplication, each component clamped into the scalar range.
    pub fn saturating_mul(self, rhs: Vector2<T>) -> (r: Vector2<T>)
        ensures
            r.x.as_int() == clamp_int(self.x.as_int() * rhs.x.as_int(), T::min_spec(), T::max_spec()),
            r.y.as_int() == clamp_int(self.y.as_int() * rhs.y.as_int(), T::min_spec(), T::max_spec()),
    {
        Vector2 { x: self.x.saturating_mul(rhs.x), y: self.y.saturating_mul(rhs.y) }
    }

    /// Multiplication by a broadcast scalar, each component clamped into the scalar range.
    pub fn saturating_mul_scalar(self, rhs: T) -> (r: Vector2<T>)
        ensures
            r.x.as_int() == clamp_int(self.x.as_int() * rhs.as_int(), T::min_spec(), T::max_spec()),
            r.y.as_int() == clamp_int(self.y.as_int() * rhs.as_int(), T::min_spec(), T::max_spec()),
    {
        Vector2 { x: self.x.saturating_mul(rhs), y: self.y.saturating_mul(rhs) }
    }

    /// Component-wise negation, wrapping around the scalar range.
    pub fn wrapping_neg(self) -> (r: Vector2<T>)
        ensures
            r.x.as_int() == wrap_int(-self.x.as_int(), T::min_spec(), T::max_spec()),
            r.y.as_int() == wrap_int(-self.y.as_int(), T::min_spec(), T::max_spec()),
    {
        Vector2 { x: self.x.wrapping_neg(), y: self.y.wrapping_neg() }
    }

    /// Component-wise addition, each component wrapping around the scalar range.
    pub fn wrapping_add(self, rhs: Vector2<T>) -> (r: Vector2<T>)
        ensures
            r.x.as_int() == wrap_int(self.x.as_int() + rhs.x.as_int(), T::min_spec(), T::max_spec()),
            r.y.as_int() == wrap_int(self.y.as_int() + rhs.y.as_int(), T::min_spec(), T::max_spec()),
    {
        Vector2 { x: self.x.wrapping_add(rhs.x), y: self.y.wrapping_add(rhs.y) }
    }

    /// Component-wise subtraction, each component wrapping around the scalar range.
    pub fn wrapping_sub(self, rhs: Vector2<T>) -> (r: Vector2<T>)
        ensures
            r.x.as_int() == wrap_int(self.x.as_int() - rhs.x.as_int(), T::min_spec(), T::max_spec()),
            r.y.as_int() == wrap_int(self.y.as_int() - rhs.y.as_int(), T::min_spec(), T::max_spec()),
    {
        Vector2 { x: self.x.wrapping_sub(rhs.x), y: self.y.wrapping_sub(rhs.y) }
    }

    /// Component-wise multiplication, each component wrapping around the scalar range.
    pub fn wrapping_mul(self, rhs: Vector2<T>) -> (r: Vector2<T>)
        ensures
            r.x.as_int() == wrap_int(self.x.as_int() * rhs.x.as_int(), T::min_spec(), T::max_spec()),
            r.y.as_int() == wrap_int(self.y.as_int() * rhs.y.as_int(), T::min_spec(), T::max_spec()),
    {
        Vector2 { x: self.x.wrapping_mul(rhs.x), y: self.y.wrapping_mul(rhs.y) }
    }

    /// Multiplication by a broadcast scalar, each component wrapping around the scalar range.
    pub fn wrapping_mul_scalar(self, rhs: T) -> (r: Vector2<T>)
        ensures
            r.x.as_int() == wrap_int(self.x.as_int() * rhs.as_int(), T::min_spec(), T::max_spec()),
            r.y.as_int() == wrap_int(self.y.as_int() * rhs.as_int(), T::min_spec(), T::max_spec()),
    {
        Vector2 { x: self.x.wrapping_mul(rhs), y: self.y.wrapping_mul(rhs) }
    }
}

impl<T: Scalar> Vector3<T> {
    /// The first failing component outcome of a checked negation, if any.
    pub open spec fn try_neg_err(self) -> Option<ArithError> {
        first_err(first_err(neg_err(self.x), neg_err(self.y)), neg_err(self.z))
    }

    /// The first failing component outcome of a checked addition, if any.
    pub open spec fn try_add_err(self, rhs: Vector3<T>) -> Option<ArithError> {
        first_err(first_err(add_err(self.x, rhs.x), add_err(self.y, rhs.y)), add_err(self.z, rhs.z))
    }

    /// The first failing component outcome of a checked subtraction, if any.
    pub open spec fn try_sub_err(self, rhs: Vector3<T>) -> Option<ArithError> {
        first_err(first_err(sub_err(self.x, rhs.x), sub_err(self.y, rhs.y)), sub_err(self.z, rhs.z))
    }

    /// The first failing component outcome of a checked multiplication, if any.
    pub open spec fn try_mul_err(self, rhs: Vector3<T>) -> Option<ArithError> {
        first_err(first_err(mul_err(self.x, rhs.x), mul_err(self.y, rhs.y)), mul_err(self.z, rhs.z))
    }

    /// The first failing component outcome of a checked division, if any.
    pub open spec fn try_div_err(self, rhs: Vector3<T>) -> Option<ArithError> {
        first_err(first_err(div_err(self.x, rhs.x), div_err(self.y, rhs.y)), div_err(self.z, rhs.z))
    }

    /// The first failing component outcome of a checked broadcast addition, if any.
    pub open spec fn try_add_scalar_err(self, rhs: T) -> Option<ArithError> {
        first_err(first_err(add_err(self.x, rhs), add_err(self.y, rhs)), add_err(self.z, rhs))
    }

    /// The first failing component outcome of a checked broadcast subtraction, if any.
    pub open spec fn try_sub_scalar_err(self, rhs: T) -> Option<ArithError> {
        first_err(first_err(sub_err(self.x, rhs), sub_err(self.y, rhs)), sub_err(self.z, rhs))
    }

    /// The first failing component outcome of a checked broadcast multiplication, if any.
    pub open spec fn try_mul_scalar_err(self, rhs: T) -> Option<ArithError> {
        first_err(first_err(mul_err(self.x, rhs), mul_err(self.y, rhs)), mul_err(self.z, rhs))
    }

    /// The first failing component outcome of a checked broadcast division, if any.
    pub open spec fn try_div_scalar_err(self, rhs: T) -> Option<ArithError> {
        first_err(first_err(div_err(self.x, rhs), div_err(self.y, rhs)), div_err(self.z, rhs))
    }

    /// Checked component-wise negation.
    pub fn try_neg(self) -> (r: Result<Vector3<T>, ArithError>)
        ensures
            match r {
                Ok(v) => self.try_neg_err() is None
                    && v.x.as_int() == -self.x.as_int()
                    && v.y.as_int() == -self.y.as_int()
                    && v.z.as_int() == -self.z.as_int(),
                Err(e) => self.try_neg_err() == Some(e),
            },
    {
        let x = match self.x.checked_neg() {
            Some(v) => v,
            None => {
                return Err(ArithError::Overflow);
            },
        };
        let y = match self.y.checked_neg() {
            Some(v) => v,
            None => {
                return Err(ArithError::Overflow);
            },
        };
        let z = match self.z.checked_neg() {
            Some(v) => v,
            None => {
                return Err(ArithError::Overflow);
            },
        };
        Ok(Vector3 { x, y, z })
    }

    /// Checked component-wise addition.
    pub fn try_add(self, rhs: Vector3<T>) -> (r: Result<Vector3<T>, ArithError>)
        ensures
            match r {
                Ok(v) => self.try_add_err(rhs) is None
                    && v.x.as_int() == self.x.as_int() + rhs.x.as_int()
                    && v.y.as_int() == self.y.as_int() + rhs.y.as_int()
                    && v.z.as_int() == self.z.as_int() + rhs.z.as_int(),
                Err(e) => self.try_add_err(rhs) == Some(e),
            },
    {
        let x = match self.x.checked_add(rhs.x) {
            Some(v) => v,
            None => {
                return Err(ArithError::Overflow);
            },
        };
        let y = match self.y.checked_add(rhs.y) {
            Some(v) => v,
            None => {
                return Err(ArithError::Overflow);
            },
        };
        let z = match self.z.checked_add(rhs.z) {
            Some(v) => v,
            None => {
                return Err(ArithError::Overflow);
            },
        };
        Ok(Vector3 { x, y, z })
    }

    /// Checked component-wise subtraction.
    pub fn try_sub(self, rhs: Vector3<T>) -> (r: Result<Vector3<T>, ArithError>)
        ensures
            match r {
                Ok(v) => self.try_sub_err(rhs) is None
                    && v.x.as_int() == self.x.as_int() - rhs.x.as_int()
                    && v.y.as_int() == self.y.as_int() - rhs.y.as_int()
                    && v.z.as_int() == self.z.as_int() - rhs.z.as_int(),
                Err(e) => self.try_sub_err(rhs) == Some(e),
            },
    {
        let x = match self.x.checked_sub(rhs.x) {
            Some(v) => v,
            None => {
                return Err(ArithError::Overflow);
            },
        };
        let y = match self.y.checked_sub(rhs.y) {
            Some(v) => v,
            None => {
                return Err(ArithError::Overflow);
            },
        };
        let z = match self.z.checked_sub(rhs.z) {
            Some(v) => v,
            None => {
                return Err(ArithError::Overflow);
            },
        };
        Ok(Vector3 { x, y, z })
    }

    /// Checked component-wise multiplication.
    pub fn try_mul(self, rhs: Vector3<T>) -> (r: Result<Vector3<T>, ArithError>)
        ensures
            match r {
                Ok(v) => self.try_mul_err(rhs) is None
                    && v.x.as_int() == self.x.as_int() * rhs.x.as_int()
                    && v.y.as_int() == self.y.as_int() * rhs.y.as_int()
                    && v.z.as_int() == self.z.as_int() * rhs.z.as_int(),
                Err(e) => self.try_mul_err(rhs) == Some(e),
            },
    {
        let x = match self.x.checked_mul(rhs.x) {
            Some(v) => v,
            None => {
                return Err(ArithError::Overflow);
            },
        };
        let y = match self.y.checked_mul(rhs.y) {
            Some(v) => v,
            None => {
                return Err(ArithError::Overflow);
            },
        };
        let z = match self.z.checked_mul(rhs.z) {
            Some(v) => v,
            None => {
                return Err(ArithError::Overflow);
            },
        };
        Ok(Vector3 { x, y, z })
    }

    /// Checked addition of a broadcast scalar.
    pub fn try_add_scalar(self, rhs: T) -> (r: Result<Vector3<T>, ArithError>)
        ensures
            match r {
                Ok(v) => self.try_add_scalar_err(rhs) is None
                    && v.x.as_int() == self.x.as_int() + rhs.as_int()
                    && v.y.as_int() == self.y.as_int() + rhs.as_int()
                    && v.z.as_int() == self.z.as_int() + rhs.as_int(),
                Err(e) => self.try_add_scalar_err(rhs) == Some(e),
            },
    {
        let x = match self.x.checked_add(rhs) {
            Some(v) => v,
            None => {
                return Err(ArithError::Overflow);
            },
        };
        let y = match self.y.checked_add(rhs) {
            Some(v) => v,
            None => {
                return Err(ArithError::Overflow);
            },
        };
        let z = match self.z.checked_add(rhs) {
            Some(v) => v,
            None => {
                return Err(ArithError::Overflow);
            },
        };
        Ok(Vector3 { x, y, z })
    }

    /// Checked subtraction of a broadcast scalar.
    pub fn try_sub_scalar(self, rhs: T) -> (r: Result<Vector3<T>, ArithError>)
        ensures
            match r {
                Ok(v) => self.try_sub_scalar_err(rhs) is None
                    && v.x.as_int() == self.x.as_int() - rhs.as_int()
                    && v.y.as_int() == self.y.as_int() - rhs.as_int()
                    && v.z.as_int() == self.z.as_int() - rhs.as_int(),
                Err(e) => self.try_sub_scalar_err(rhs) == Some(e),
            },
    {
        let x = match self.x.checked_sub(rhs) {
            Some(v) => v,
            None => {
                return Err(ArithError::Overflow);
            },
        };
        let y = match self.y.checked_sub(rhs) {
            Some(v) => v,
            None => {
                return Err(ArithError::Overflow);
            },
        };
        let z = match self.z.checked_sub(rhs) {
            Some(v) => v,
            None => {
                return Err(ArithError::Overflow);
            },
        };
        Ok(Vector3 { x, y, z })
    }

    /// Checked multiplication by a broadcast scalar.
    pub fn try_mul_scalar(self, rhs: T) -> (r: Result<Vector3<T>, ArithError>)
        ensures
            match r {
                Ok(v) => self.try_mul_scalar_err(rhs) is None
                    && v.x.as_int() == self.x.as_int() * rhs.as_int()
                    && v.y.as_int() == self.y.as_int() * rhs.as_int()
                    && v.z.as_int() == self.z.as_int() * rhs.as_int(),
                Err(e) => self.try_mul_scalar_err(rhs) == Some(e),
            },
    {
        let x = match self.x.checked_mul(rhs) {
            Some(v) => v,
            None => {
                return Err(ArithError::Overflow);
            },
        };
        let y = match self.y.checked_mul(rhs) {
            Some(v) => v,
            None => {
                return Err(ArithError::Overflow);
            },
        };
        let z = match self.z.checked_mul(rhs) {
            Some(v) => v,
            None => {
                return Err(ArithError::Overflow);
            },
        };
        Ok(Vector3 { x, y, z })
    }

    /// Checked component-wise division, truncating toward zero.
    pub fn try_div(self, rhs: Vector3<T>) -> (r: Result<Vector3<T>, ArithError>)
        ensures
            match r {
                Ok(v) => self.try_div_err(rhs) is None
                    && v.x.as_int() == trunc_div(self.x.as_int(), rhs.x.as_int())
                    && v.y.as_int() == trunc_div(self.y.as_int(), rhs.y.as_int())
                    && v.z.as_int() == trunc_div(self.z.as_int(), rhs.z.as_int()),
                Err(e) => self.try_div_err(rhs) == Some(e),
            },
    {
        let x = match self.x.checked_div(rhs.x) {
            Some(v) => v,
            None => {
                return Err(
                    if rhs.x.is_zero() {
                        ArithError::DivideByZero
                    } else {
                        ArithError::Overflow
                    },
                );
            },
        };
        let y = match self.y.checked_div(rhs.y) {
            Some(v) => v,
            None => {
                return Err(
                    if rhs.y.is_zero() {
                        ArithError::DivideByZero
                    } else {
                        ArithError::Overflow
                    },
                );
            },
        };
        let z = match self.z.checked_div(rhs.z) {
            Some(v) => v,
            None => {
                return Err(
                    if rhs.z.is_zero() {
                        ArithError::DivideByZero
                    } else {
                        ArithError::Overflow
                    },
                );
            },
        };
        Ok(Vector3 { x, y, z })
    }

    /// Checked division by a broadcast scalar, truncating toward zero.
    pub fn try_div_scalar(self, rhs: T) -> (r: Result<Vector3<T>, ArithError>)
        ensures
            match r {
                Ok(v) => self.try_div_scalar_err(rhs) is None
                    && v.x.as_int() == trunc_div(self.x.as_int(), rhs.as_int())
                    && v.y.as_int() == trunc_div(self.y.as_int(), rhs.as_int())
                    && v.z.as_int() == trunc_div(self.z.as_int(), rhs.as_int()),
                Err(e) => self.try_div_scalar_err(rhs) == Some(e),
            },
    {
        let x = match self.x.checked_div(rhs) {
            Some(v) => v,
            None => {
                return Err(
                    if rhs.is_zero() {
                        ArithError::DivideByZero
                    } else {
                        ArithError::Overflow
                    },
                );
            },
        };
        let y = match self.y.checked_div(rhs) {
            Some(v) => v,
            None => {
                return Err(
                    if rhs.is_zero() {
                        ArithError::DivideByZero
                    } else {
                        ArithError::Overflow
                    },
                );
            },
        };
        let z = match self.z.checked_div(rhs) {
            Some(v) => v,
            None => {
                return Err(
                    if rhs.is_zero() {
                        ArithError::DivideByZero
                    } else {
                        ArithError::Overflow
                    },
                );
            },
        };
        Ok(Vector3 { x, y, z })
    }

    /// Component-wise negation, clamped into the scalar range.
    pub fn saturating_neg(self) -> (r: Vector3<T>)
        ensures
            r.x.as_int() == clamp_int(-self.x.as_int(), T::min_spec(), T::max_spec()),
            r.y.as_int() == clamp_int(-self.y.as_int(), T::min_spec(), T::max_spec()),
            r.z.as_int() == clamp_int(-self.z.as_int(), T::min_spec(), T::max_spec()),
    {
        Vector3 { x: self.x.saturating_neg(), y: self.y.saturating_neg(), z: self.z.saturating_neg() }
    }

    /// Component-wise addition, each component clamped into the scalar range.
    pub fn saturating_add(self, rhs: Vector3<T>) -> (r: Vector3<T>)
        ensures
            r.x.as_int() == clamp_int(self.x.as_int() + rhs.x.as_int(), T::min_spec(), T::max_spec()),
            r.y.as_int() == clamp_int(self.y.as_int() + rhs.y.as_int(), T::min_spec(), T::max_spec()),
            r.z.as_int() == clamp_int(self.z.as_int() + rhs.z.as_int(), T::min_spec(), T::max_spec()),
    {
        Vector3 { x: self.x.saturating_add(rhs.x), y: self.y.saturating_add(rhs.y), z: self.z.saturating_add(rhs.z) }
    }

    /// Component-wise subtraction, each component clamped into the scalar range.
    pub fn saturating_sub(self, rhs: Vector3<T>) -> (r: Vector3<T>)
        ensures
            r.x.as_int() == clamp_int(self.x.as_int() - rhs.x.as_int(), T::min_spec(), T::max_spec()),
            r.y.as_int() == clamp_int(self.y.as_int() - rhs.y.as_int(), T::min_spec(), T::max_spec()),
            r.z.as_int() == clamp_int(self.z.as_int() - rhs.z.as_int(), T::min_spec(), T::max_spec()),
    {
        Vector3 { x: self.x.saturating_sub(rhs.x), y: self.y.saturating_sub(rhs.y), z: self.z.saturating_sub(rhs.z) }
    }

    /// Component-wise multiplication, each component clamped into the scalar range.
    pub fn saturating_mul(self, rhs: Vector3<T>) -> (r: Vector3<T>)
        ensures
            r.x.as_int() == clamp_int(self.x.as_int() * rhs.x.as_int(), T::min_spec(), T::max_spec()),
            r.y.as_int() == clamp_int(self.y.as_int() * rhs.y.as_int(), T::min_spec(), T::max_spec()),
            r.z.as_int() == clamp_int(self.z.as_int() * rhs.z.as_int(), T::min_spec(), T::max_spec()),
    {
        Vector3 { x: self.x.saturating_mul(rhs.x), y: self.y.saturating_mul(rhs.y), z: self.z.saturating_mul(rhs.z) }
    }

    /// Multiplication by a broadcast scalar, each component clamped into the scalar range.
    pub fn saturating_mul_scalar(self, rhs: T) -> (r: Vector3<T>)
        ensures
            r.x.as_int() == clamp_int(self.x.as_int() * rhs.as_int(), T::min_spec(), T::max_spec()),
            r.y.as_int() == clamp_int(self.y.as_int() * rhs.as_int(), T::min_spec(), T::max_spec()),
            r.z.as_int() == clamp_int(self.z.as_int() * rhs.as_int(), T::min_spec(), T::max_spec()),
    {
        Vector3 { x: self.x.saturating_mul(rhs), y: self.y.saturating_mul(rhs), z: self.z.saturating_mul(rhs) }
    }

    /// Component-wise negation, wrapping around the scalar range.
    pub fn wrapping_neg(self) -> (r: Vector3<T>)
        ensures
            r.x.as_int() == wrap_int(-self.x.as_int(), T::min_spec(), T::max_spec()),
            r.y.as_int() == wrap_int(-self.y.as_int(), T::min_spec(), T::max_spec()),
            r.z.as_int() == wrap_int(-self.z.as_int(), T::min_spec(), T::max_spec()),
    {
        Vector3 { x: self.x.wrapping_neg(), y: self.y.wrapping_neg(), z: self.z.wrapping_neg() }
    }

    /// Component-wise addition, each component wrapping around the scalar range.
    pub fn wrapping_add(self, rhs: Vector3<T>) -> (r: Vector3<T>)
        ensures
            r.x.as_int() == wrap_int(self.x.as_int() + rhs.x.as_int(), T::min_spec(), T::max_spec()),
            r.y.as_int() == wrap_int(self.y.as_int() + rhs.y.as_int(), T::min_spec(), T::max_spec()),
            r.z.as_int() == wrap_int(self.z.as_int() + rhs.z.as_int(), T::min_spec(), T::max_spec()),
    {
        Vector3 { x: self.x.wrapping_add(rhs.x), y: self.y.wrapping_add(rhs.y), z: self.z.wrapping_add(rhs.z) }
    }

    /// Component-wise subtraction, each component wrapping around the scalar range.
    pub fn wrapping_sub(self, rhs: Vector3<T>) -> (r: Vector3<T>)
        ensures
            r.x.as_int() == wrap_int(self.x.as_int() - rhs.x.as_int(), T::min_spec(), T::max_spec()),
            r.y.as_int() == wrap_int(self.y.as_int() - rhs.y.as_int(), T::min_spec(), T::max_spec()),
            r.z.as_int() == wrap_int(self.z.as_int() - rhs.z.as_int(), T::min_spec(), T::max_spec()),
    {
        Vector3 { x: self.x.wrapping_sub(rhs.x), y: self.y.wrapping_sub(rhs.y), z: self.z.wrapping_sub(rhs.z) }
    }

    /// Component-wise multiplication, each component wrapping around the scalar range.
    pub fn wrapping_mul(self, rhs: Vector3<T>) -> (r: Vector3<T>)
        ensures
            r.x.as_int() == wrap_int(self.x.as_int() * rhs.x.as_int(), T::min_spec(), T::max_spec()),
            r.y.as_int() == wrap_int(self.y.as_int() * rhs.y.as_int(), T::min_spec(), T::max_spec()),
            r.z.as_int() == wrap_int(self.z.as_int() * rhs.z.as_int(), T::min_spec(), T::max_spec()),
    {
        Vector3 { x: self.x.wrapping_mul(rhs.x), y: self.y.wrapping_mul(rhs.y), z: self.z.wrapping_mul(rhs.z) }
    }

    /// Multiplication by a broadcast scalar, each component wrapping around the scalar range.
    pub fn wrapping_mul_scalar(self, rhs: T) -> (r: Vector3<T>)
        ensures
            r.x.as_int() == wrap_int(self.x.as_int() * rhs.as_int(), T::min_spec(), T::max_spec()),
            r.y.as_int() == wrap_int(self.y.as_int() * rhs.as_int(), T::min_spec(), T::max_spec()),
            r.z.as_int() == wrap_int(self.z.as_int() * rhs.as_int(), T::min_spec(), T::max_spec()),
    {
        Vector3 { x: self.x.wrapping_mul(rhs), y: self.y.wrapping_mul(rhs), z: self.z.wrapping_mul(rhs) }
    }
}

impl<T: Scalar> Vector4<T> {
    /// The first failing component outcome of a checked negation, if any.
    pub open spec fn try_neg_err(self) -> Option<ArithError> {
        first_err(first_err(first_err(neg_err(self.x), neg_err(self.y)), neg_err(self.z)), neg_err(self.w))
    }

    /// The first failing component outcome of a checked addition, if any.
    pub open spec fn try_add_err(self, rhs: Vector4<T>) -> Option<ArithError> {
        first_err(first_err(first_err(add_err(self.x, rhs.x), add_err(self.y, rhs.y)), add_err(self.z, rhs.z)), add_err(self.w, rhs.w))
    }

    /// The first failing component outcome of a checked subtraction, if any.
    pub open spec fn try_sub_err(self, rhs: Vector4<T>) -> Option<ArithError> {
        first_err(first_err(first_err(sub_err(self.x, rhs.x), sub_err(self.y, rhs.y)), sub_err(self.z, rhs.z)), sub_err(self.w, rhs.w))
    }

    /// The first failing component outcome of a checked multiplication, if any.
    pub open spec fn try_mul_err(self, rhs: Vector4<T>) -> Option<ArithError> {
        first_err(first_err(first_err(mul_err(self.x, rhs.x), mul_err(self.y, rhs.y)), mul_err(self.z, rhs.z)), mul_err(self.w, rhs.w))
    }

    /// The first failing component outcome of a checked division, if any.
    pub open spec fn try_div_err(self, rhs: Vector4<T>) -> Option<ArithError> {
        first_err(first_err(first_err(div_err(self.x, rhs.x), div_err(self.y, rhs.y)), div_err(self.z, rhs.z)), div_err(self.w, rhs.w))
    }

    /// The first failing component outcome of a checked broadcast addition, if any.
    pub open spec fn try_add_scalar_err(self, rhs: T) -> Option<ArithError> {
        first_err(first_err(first_err(add_err(self.x, rhs), add_err(self.y, rhs)), add_err(self.z, rhs)), add_err(self.w, rhs))
    }

    /// The first failing component outcome of a checked broadcast subtraction, if any.
    pub open spec fn try_sub_scalar_err(self, rhs: T) -> Option<ArithError> {
        first_err(first_err(first_err(sub_err(self.x, rhs), sub_err(self.y, rhs)), sub_err(self.z, rhs)), sub_err(self.w, rhs))
    }

    /// The first failing component outcome of a checked broadcast multiplication, if any.
    pub open spec fn try_mul_scalar_err(self, rhs: T) -> Option<ArithError> {
        first_err(first_err(first_err(mul_err(self.x, rhs), mul_err(self.y, rhs)), mul_err(self.z, rhs)), mul_err(self.w, rhs))
    }

    /// The first failing component outcome of a checked broadcast division, if any.
    pub open spec fn try_div_scalar_err(self, rhs: T) -> Option<ArithError> {
        first_err(first_err(first_err(div_err(self.x, rhs), div_err(self.y, rhs)), div_err(self.z, rhs)), div_err(self.w, rhs))
    }

    /// Checked component-wise negation.
    pub fn try_neg(self) -> (r: Result<Vector4<T>, ArithError>)
        ensures
            match r {
                Ok(v) => self.try_neg_err() is None
                    && v.x.as_int() == -self.x.as_int()
                    && v.y.as_int() == -self.y.as_int()
                    && v.z.as_int() == -self.z.as_int()
                    && v.w.as_int() == -self.w.as_int(),
                Err(e) => self.try_neg_err() == Some(e),
            },
    {
        let x = match self.x.checked_neg() {
            Some(v) => v,
            None => {
                return Err(ArithError::Overflow);
            },
        };
        let y = match self.y.checked_neg() {
            Some(v) => v,
            None => {
                return Err(ArithError::Overflow);
            },
        };
        let z = match self.z.checked_neg() {
            Some(v) => v,
            None => {
                return Err(ArithError::Overflow);
            },
        };
        let w = match self.w.checked_neg() {
            Some(v) => v,
            None => {
                return Err(ArithError::Overflow);
            },
        };
        Ok(Vector4 { x, y, z, w })
    }

    /// Checked component-wise addition.
    pub fn try_add(self, rhs: Vector4<T>) -> (r: Result<Vector4<T>, ArithError>)
        ensures
            match r {
                Ok(v) => self.try_add_err(rhs) is None
                    && v.x.as_int() == self.x.as_int() + rhs.x.as_int()
                    && v.y.as_int() == self.y.as_int() + rhs.y.as_int()
                    && v.z.as_int() == self.z.as_int() + rhs.z.as_int()
                    && v.w.as_int() == self.w.as_int() + rhs.w.as_int(),
                Err(e) => self.try_add_err(rhs) == Some(e),
            },
    {
        let x = match self.x.checked_add(rhs.x) {
            Some(v) => v,
            None => {
                return Err(ArithError::Overflow);
            },
        };
        let y = match self.y.checked_add(rhs.y) {
            Some(v) => v,
            None => {
                return Err(ArithError::Overflow);
            },
        };
        let z = match self.z.checked_add(rhs.z) {
            Some(v) => v,
            None => {
                return Err(ArithError::Overflow);
            },
        };
        let w = match self.w.checked_add(rhs.w) {
            Some(v) => v,
            None => {
                return Err(ArithError::Overflow);
            },
        };
        Ok(Vector4 { x, y, z, w })
    }

    /// Checked component-wise subtraction.
    pub fn try_sub(self, rhs: Vector4<T>) -> (r: Result<Vector4<T>, ArithError>)
        ensures
            match r {
                Ok(v) => self.try_sub_err(rhs) is None
                    && v.x.as_int() == self.x.as_int() - rhs.x.as_int()
                    && v.y.as_int() == self.y.as_int() - rhs.y.as_int()
                    && v.z.as_int() == self.z.as_int() - rhs.z.as_int()
                    && v.w.as_int() == self.w.as_int() - rhs.w.as_int(),
                Err(e) => self.try_sub_err(rhs) == Some(e),
            },
    {
        let x = match self.x.checked_sub(rhs.x) {
            Some(v) => v,
            None => {
                return Err(ArithError::Overflow);
            },
        };
        let y = match self.y.checked_sub(rhs.y) {
            Some(v) => v,
            None => {
                return Err(ArithError::Overflow);
            },
        };
        let z = match self.z.checked_sub(rhs.z) {
            Some(v) => v,
            None => {
                return Err(ArithError::Overflow);
            },
        };
        let w = match self.w.checked_sub(rhs.w) {
            Some(v) => v,
            None => {
                return Err(ArithError::Overflow);
            },
        };
        Ok(Vector4 { x, y, z, w })
    }

    /// Checked component-wise multiplication.
    pub fn try_mul(self, rhs: Vector4<T>) -> (r: Result<Vector4<T>, ArithError>)
        ensures
            match r {
                Ok(v) => self.try_mul_err(rhs) is None
                    && v.x.as_int() == self.x.as_int() * rhs.x.as_int()
                    && v.y.as_int() == self.y.as_int() * rhs.y.as_int()
                    && v.z.as_int() == self.z.as_int() * rhs.z.as_int()
                    && v.w.as_int() == self.w.as_int() * rhs.w.as_int(),
                Err(e) => self.try_mul_err(rhs) == Some(e),
            },
    {
        let x = match self.x.checked_mul(rhs.x) {
            Some(v) => v,
            None => {
                return Err(ArithError::Overflow);
            },
        };
        let y = match self.y.checked_mul(rhs.y) {
            Some(v) => v,
            None => {
                return Err(ArithError::Overflow);
            },
        };
        let z = match self.z.checked_mul(rhs.z) {
            Some(v) => v,
            None => {
                return Err(ArithError::Overflow);
            },
        };
        let w = match self.w.checked_mul(rhs.w) {
            Some(v) => v,
            None => {
                return Err(ArithError::Overflow);
            },
        };
        Ok(Vector4 { x, y, z, w })
    }

    /// Checked addition of a broadcast scalar.
    pub fn try_add_scalar(self, rhs: T) -> (r: Result<Vector4<T>, ArithError>)
        ensures
            match r {
                Ok(v) => self.try_add_scalar_err(rhs) is None
                    && v.x.as_int() == self.x.as_int() + rhs.as_int()
                    && v.y.as_int() == self.y.as_int() + rhs.as_int()
                    && v.z.as_int() == self.z.as_int() + rhs.as_int()
                    && v.w.as_int() == self.w.as_int() + rhs.as_int(),
                Err(e) => self.try_add_scalar_err(rhs) == Some(e),
            },
    {
        let x = match self.x.checked_add(rhs) {
            Some(v) => v,
            None => {
                return Err(ArithError::Overflow);
            },
        };
        let y = match self.y.checked_add(rhs) {
            Some(v) => v,
            None => {
                return Err(ArithError::Overflow);
            },
        };
        let z = match self.z.checked_add(rhs) {
            Some(v) => v,
            None => {
                return Err(ArithError::Overflow);
            },
        };
        let w = match self.w.checked_add(rhs) {
            Some(v) => v,
            None => {
                return Err(ArithError::Overflow);
            },
        };
        Ok(Vector4 { x, y, z, w })
    }

    /// Checked subtraction of a broadcast scalar.
    pub fn try_sub_scalar(self, rhs: T) -> (r: Result<Vector4<T>, ArithError>)
        ensures
            match r {
                Ok(v) => self.try_sub_scalar_err(rhs) is None
                    && v.x.as_int() == self.x.as_int() - rhs.as_int()
                    && v.y.as_int() == self.y.as_int() - rhs.as_int()
                    && v.z.as_int() == self.z.as_int() - rhs.as_int()
                    && v.w.as_int() == self.w.as_int() - rhs.as_int(),
                Err(e) => self.try_sub_scalar_err(rhs) == Some(e),
            },
    {
        let x = match self.x.checked_sub(rhs) {
            Some(v) => v,
            None => {
                return Err(ArithError::Overflow);
            },
        };
        let y = match self.y.checked_sub(rhs) {
            Some(v) => v,
            None => {
                return Err(ArithError::Overflow);
            },
        };
        let z = match self.z.checked_sub(rhs) {
            Some(v) => v,
            None => {
                return Err(ArithError::Overflow);
            },
        };
        let w = match self.w.checked_sub(rhs) {
            Some(v) => v,
            None => {
                return Err(ArithError::Overflow);
            },
        };
        Ok(Vector4 { x, y, z, w })
    }

    /// Checked multiplication by a broadcast scalar.
    pub fn try_mul_scalar(self, rhs: T) -> (r: Result<Vector4<T>, ArithError>)
        ensures
            match r {
                Ok(v) => self.try_mul_scalar_err(rhs) is None
                    && v.x.as_int() == self.x.as_int() * rhs.as_int()
                    && v.y.as_int() == self.y.as_int() * rhs.as_int()
                    && v.z.as_int() == self.z.as_int() * rhs.as_int()
                    && v.w.as_int() == self.w.as_int() * rhs.as_int(),
                Err(e) => self.try_mul_scalar_err(rhs) == Some(e),
            },
    {
        let x = match self.x.checked_mul(rhs) {
            Some(v) => v,
            None => {
                return Err(ArithError::Overflow);
            },
        };
        let y = match self.y.checked_mul(rhs) {
            Some(v) => v,
            None => {
                return Err(ArithError::Overflow);
            },
        };
        let z = match self.z.checked_mul(rhs) {
            Some(v) => v,
            None => {
                return Err(ArithError::Overflow);
            },
        };
        let w = match self.w.checked_mul(rhs) {
            Some(v) => v,
            None => {
                return Err(ArithError::Overflow);
            },
        };
        Ok(Vector4 { x, y, z, w })
    }

    /// Checked component-wise division, truncating toward zero.
    pub fn try_div(self, rhs: Vector4<T>) -> (r: Result<Vector4<T>, ArithError>)
        ensures
            match r {
                Ok(v) => self.try_div_err(rhs) is None
                    && v.x.as_int() == trunc_div(self.x.as_int(), rhs.x.as_int())
                    && v.y.as_int() == trunc_div(self.y.as_int(), rhs.y.as_int())
                    && v.z.as_int() == trunc_div(self.z.as_int(), rhs.z.as_int())
                    && v.w.as_int() == trunc_div(self.w.as_int(), rhs.w.as_int()),
                Err(e) => self.try_div_err(rhs) == Some(e),
            },
    {
        let x = match self.x.checked_div(rhs.x) {
            Some(v) => v,
            None => {
                return Err(
                    if rhs.x.is_zero() {
                        ArithError::DivideByZero
                    } else {
                        ArithError::Overflow
                    },
                );
            },
        };
        let y = match self.y.checked_div(rhs.y) {
            Some(v) => v,
            None => {
                return Err(
                    if rhs.y.is_zero() {
                        ArithError::DivideByZero
                    } else {
                        ArithError::Overflow
                    },
                );
            },
        };
        let z = match self.z.checked_div(rhs.z) {
            Some(v) => v,
            None => {
                return Err(
                    if rhs.z.is_zero() {
                        ArithError::DivideByZero
                    } else {
                        ArithError::Overflow
                    },
                );
            },
        };
        let w = match self.w.checked_div(rhs.w) {
            Some(v) => v,
            None => {
                return Err(
                    if rhs.w.is_zero() {
                        ArithError::DivideByZero
                    } else {
                        ArithError::Overflow
                    },
                );
            },
        };
        Ok(Vector4 { x, y, z, w })
    }

    /// Checked division by a broadcast scalar, truncating toward zero.
    pub fn try_div_scalar(self, rhs: T) -> (r: Result<Vector4<T>, ArithError>)
        ensures
            match r {
                Ok(v) => self.try_div_scalar_err(rhs) is None
                    && v.x.as_int() == trunc_div(self.x.as_int(), rhs.as_int())
                    && v.y.as_int() == trunc_div(self.y.as_int(), rhs.as_int())
                    && v.z.as_int() == trunc_div(self.z.as_int(), rhs.as_int())
                    && v.w.as_int() == trunc_div(self.w.as_int(), rhs.as_int()),
                Err(e) => self.try_div_scalar_err(rhs) == Some(e),
            },
    {
        let x = match self.x.checked_div(rhs) {
            Some(v) => v,
            None => {
                return Err(
                    if rhs.is_zero() {
                        ArithError::DivideByZero
                    } else {
                        ArithError::Overflow
                    },
                );
            },
        };
        let y = match self.y.checked_div(rhs) {
            Some(v) => v,
            None => {
                return Err(
                    if rhs.is_zero() {
                        ArithError::DivideByZero
                    } else {
                        ArithError::Overflow
                    },
                );
            },
        };
        let z = match self.z.checked_div(rhs) {
            Some(v) => v,
            None => {
                return Err(
                    if rhs.is_zero() {
                        ArithError::DivideByZero
                    } else {
                        ArithError::Overflow
                    },
                );
            },
        };
        let w = match self.w.checked_div(rhs) {
            Some(v) => v,
            None => {
                return Err(
                    if rhs.is_zero() {
                        ArithError::DivideByZero
                    } else {
                        ArithError::Overflow
                    },
                );
            },
        };
        Ok(Vector4 { x, y, z, w })
    }

    /// Component-wise negation, clamped into the scalar range.
    pub fn saturating_neg(self) -> (r: Vector4<T>)
        ensures
            r.x.as_int() == clamp_int(-self.x.as_int(), T::min_spec(), T::max_spec()),
            r.y.as_int() == clamp_int(-self.y.as_int(), T::min_spec(), T::max_spec()),
            r.z.as_int() == clamp_int(-self.z.as_int(), T::min_spec(), T::max_spec()),
            r.w.as_int() == clamp_int(-self.w.as_int(), T::min_spec(), T::max_spec()),
    {
        Vector4 { x: self.x.saturating_neg(), y: self.y.saturating_neg(), z: self.z.saturating_neg(), w: self.w.saturating_neg() }
    }

    /// Component-wise addition, each component clamped into the scalar range.
    pub fn saturating_add(self, rhs: Vector4<T>) -> (r: Vector4<T>)
        ensures
            r.x.as_int() == clamp_int(self.x.as_int() + rhs.x.as_int(), T::min_spec(), T::max_spec()),
            r.y.as_int() == clamp_int(self.y.as_int() + rhs.y.as_int(), T::min_spec(), T::max_spec()),
            r.z.as_int() == clamp_int(self.z.as_int() + rhs.z.as_int(), T::min_spec(), T::max_spec()),
            r.w.as_int() == clamp_int(self.w.as_int() + rhs.w.as_int(), T::min_spec(), T::max_spec()),
    {
        Vector4 { x: self.x.saturating_add(rhs.x), y: self.y.saturating_add(rhs.y), z: self.z.saturating_add(rhs.z), w: self.w.saturating_add(rhs.w) }
    }

    /// Component-wise subtraction, each component clamped into the scalar range.
    pub fn saturating_sub(self, rhs: Vector4<T>) -> (r: Vector4<T>)
        ensures
            r.x.as_int() == clamp_int(self.x.as_int() - rhs.x.as_int(), T::min_spec(), T::max_spec()),
            r.y.as_int() == clamp_int(self.y.as_int() - rhs.y.as_int(), T::min_spec(), T::max_spec()),
            r.z.as_int() == clamp_int(self.z.as_int() - rhs.z.as_int(), T::min_spec(), T::max_spec()),
            r.w.as_int() == clamp_int(self.w.as_int() - rhs.w.as_int(), T::min_spec(), T::max_spec()),
    {
        Vector4 { x: self.x.saturating_sub(rhs.x), y: self.y.saturating_sub(rhs.y), z: self.z.saturating_sub(rhs.z), w: self.w.saturating_sub(rhs.w) }
    }

    /// Component-wise multiplication, each component clamped into the scalar range.
    pub fn saturating_mul(self, rhs: Vector4<T>) -> (r: Vector4<T>)
        ensures
            r.x.as_int() == clamp_int(self.x.as_int() * rhs.x.as_int(), T::min_spec(), T::max_spec()),
            r.y.as_int() == clamp_int(self.y.as_int() * rhs.y.as_int(), T::min_spec(), T::max_spec()),
            r.z.as_int() == clamp_int(self.z.as_int() * rhs.z.as_int(), T::min_spec(), T::max_spec()),
            r.w.as_int() == clamp_int(self.w.as_int() * rhs.w.as_int(), T::min_spec(), T::max_spec()),
    {
        Vector4 { x: self.x.saturating_mul(rhs.x), y: self.y.saturating_mul(rhs.y), z: self.z.saturating_mul(rhs.z), w: self.w.saturating_mul(rhs.w) }
    }

    /// Multiplication by a broadcast scalar, each component clamped into the scalar range.
    pub fn saturating_mul_scalar(self, rhs: T) -> (r: Vector4<T>)
        ensures
            r.x.as_int() == clamp_int(self.x.as_int() * rhs.as_int(), T::min_spec(), T::max_spec()),
            r.y.as_int() == clamp_int(self.y.as_int() * rhs.as_int(), T::min_spec(), T::max_spec()),
            r.z.as_int() == clamp_int(self.z.as_int() * rhs.as_int(), T::min_spec(), T::max_spec()),
            r.w.as_int() == clamp_int(self.w.as_int() * rhs.as_int(), T::min_spec(), T::max_spec()),
    {
        Vector4 { x: self.x.saturating_mul(rhs), y: self.y.saturating_mul(rhs), z: self.z.saturating_mul(rhs), w: self.w.saturating_mul(rhs) }
    }

    /// Component-wise negation, wrapping around the scalar range.
    pub fn wrapping_neg(self) -> (r: Vector4<T>)
        ensures
            r.x.as_int() == wrap_int(-self.x.as_int(), T::min_spec(), T::max_spec()),
            r.y.as_int() == wrap_int(-self.y.as_int(), T::min_spec(), T::max_spec()),
            r.z.as_int() == wrap_int(-self.z.as_int(), T::min_spec(), T::max_spec()),
            r.w.as_int() == wrap_int(-self.w.as_int(), T::min_spec(), T::max_spec()),
    {
        Vector4 { x: self.x.wrapping_neg(), y: self.y.wrapping_neg(), z: self.z.wrapping_neg(), w: self.w.wrapping_neg() }
    }

    /// Component-wise addition, each component wrapping around the scalar range.
    pub fn wrapping_add(self, rhs: Vector4<T>) -> (r: Vector4<T>)
        ensures
            r.x.as_int() == wrap_int(self.x.as_int() + rhs.x.as_int(), T::min_spec(), T::max_spec()),
            r.y.as_int() == wrap_int(self.y.as_int() + rhs.y.as_int(), T::min_spec(), T::max_spec()),
            r.z.as_int() == wrap_int(self.z.as_int() + rhs.z.as_int(), T::min_spec(), T::max_spec()),
            r.w.as_int() == wrap_int(self.w.as_int() + rhs.w.as_int(), T::min_spec(), T::max_spec()),
    {
        Vector4 { x: self.x.wrapping_add(rhs.x), y: self.y.wrapping_add(rhs.y), z: self.z.wrapping_add(rhs.z), w: self.w.wrapping_add(rhs.w) }
    }

    /// Component-wise subtraction, each component wrapping around the scalar range.
    pub fn wrapping_sub(self, rhs: Vector4<T>) -> (r: Vector4<T>)
        ensures
            r.x.as_int() == wrap_int(self.x.as_int() - rhs.x.as_int(), T::min_spec(), T::max_spec()),
            r.y.as_int() == wrap_int(self.y.as_int() - rhs.y.as_int(), T::min_spec(), T::max_spec()),
            r.z.as_int() == wrap_int(self.z.as_int() - rhs.z.as_int(), T::min_spec(), T::max_spec()),
            r.w.as_int() == wrap_int(self.w.as_int() - rhs.w.as_int(), T::min_spec(), T::max_spec()),
    {
        Vector4 { x: self.x.wrapping_sub(rhs.x), y: self.y.wrapping_sub(rhs.y), z: self.z.wrapping_sub(rhs.z), w: self.w.wrapping_sub(rhs.w) }
    }

    /// Component-wise multiplication, each component wrapping around the scalar range.
    pub fn wrapping_mul(self, rhs: Vector4<T>) -> (r: Vector4<T>)
        ensures
            r.x.as_int() == wrap_int(self.x.as_int() * rhs.x.as_int(), T::min_spec(), T::max_spec()),
            r.y.as_int() == wrap_int(self.y.as_int() * rhs.y.as_int(), T::min_spec(), T::max_spec()),
            r.z.as_int() == wrap_int(self.z.as_int() * rhs.z.as_int(), T::min_spec(), T::max_spec()),
            r.w.as_int() == wrap_int(self.w.as_int() * rhs.w.as_int(), T::min_spec(), T::max_spec()),
    {
        Vector4 { x: self.x.wrapping_mul(rhs.x), y: self.y.wrapping_mul(rhs.y), z: self.z.wrapping_mul(rhs.z), w: self.w.wrapping_mul(rhs.w) }
    }

    /// Multiplication by a broadcast scalar, each component wrapping around the scalar range.
    pub fn wrapping_mul_scalar(self, rhs: T) -> (r: Vector4<T>)
        ensures
            r.x.as_int() == wrap_int(self.x.as_int() * rhs.as_int(), T::min_spec(), T::max_spec()),
            r.y.as_int() == wrap_int(self.y.as_int() * rhs.as_int(), T::min_spec(), T::max_spec()),
            r.z.as_int() == wrap_int(self.z.as_int() * rhs.as_int(), T::min_spec(), T::max_spec()),
            r.w.as_int() == wrap_int(self.w.as_int() * rhs.as_int(), T::min_spec(), T::max_spec()),
    {
        Vector4 { x: self.x.wrapping_mul(rhs), y: self.y.wrapping_mul(rhs), z: self.z.wrapping_mul(rhs), w: self.w.wrapping_mul(rhs) }
    }
}

} // verus!
