//! Axis-aligned rectangle types: a 2-dimensional rectangle and a
//! 3-dimensional box, each a pair of opposite corner vectors. Corners carry
//! no ordering invariant; being ordered or positive are derived predicates,
//! and a rectangle is canonicalized per axis only when an ordering operation
//! is called. Every vector operation lifts to a rectangle by applying it to
//! both corners independently.

mod ext_ops;

use vstd::prelude::*;

use crate::scalar::{fits, trunc_div, ConvertError, Scalar};
use crate::vector::{Vector2, Vector3};

verus! {

/// The larger of two scalars, preferring the second on equal values.
pub open spec fn partial_max_spec<T: Scalar>(a: T, b: T) -> T {
    if a.as_int() > b.as_int() {
        a
    } else {
        b
    }
}

/// The smaller of two scalars, preferring the first on equal values.
pub open spec fn partial_min_spec<T: Scalar>(a: T, b: T) -> T {
    if b.as_int() < a.as_int() {
        b
    } else {
        a
    }
}

/// The two scalars in ascending order, keeping equal values in place.
pub open spec fn sort_spec<T: Scalar>(a: T, b: T) -> (T, T) {
    if a.as_int() > b.as_int() {
        (b, a)
    } else {
        (a, b)
    }
}

fn partial_max<T: Scalar>(a: T, b: T) -> (r: T)
    ensures
        r == partial_max_spec(a, b),
{
    if b.lt(a) {
        a
    } else {
        b
    }
}

fn partial_min<T: Scalar>(a: T, b: T) -> (r: T)
    ensures
        r == partial_min_spec(a, b),
{
    if b.lt(a) {
        b
    } else {
        a
    }
}

fn sort<T: Scalar>(a: T, b: T) -> (r: (T, T))
    ensures
        r == sort_spec(a, b),
{
    if b.lt(a) {
        (b, a)
    } else {
        (a, b)
    }
}

/// 2-dimensional, axis-aligned rectangle structure defined as two opposite points.
#[derive(Clone, Copy, Debug, Eq, Hash, PartialEq, Structural)]
pub struct Rect2<T>(pub Vector2<T>, pub Vector2<T>);

impl<T> Rect2<T> {
    /// Constructs a rectangle from decomposed vectors.
    pub fn new(x0: T, y0: T, x1: T, y1: T) -> (r: Rect2<T>)
        ensures
            r.0.x == x0,
            r.0.y == y0,
            r.1.x == x1,
            r.1.y == y1,
    {
        Rect2(Vector2::new(x0, y0), Vector2::new(x1, y1))
    }

    /// Constructs a rectangle from a flat tuple of both corners' components.
    pub fn from_tuple(t: (T, T, T, T)) -> (r: Rect2<T>)
        ensures
            r.0.x == t.0,
            r.0.y == t.1,
            r.1.x == t.2,
            r.1.y == t.3,
    {
        let (x0, y0, x1, y1) = t;
        Rect2(Vector2::new(x0, y0), Vector2::new(x1, y1))
    }
}

impl<T: Scalar> Rect2<T> {
    /// Constructs a rectangle from a size alone, placing the first corner at
    /// the origin.
    pub fn from_size(size: Vector2<T>) -> (r: Rect2<T>)
        ensures
            r.0.x.as_int() == 0,
            r.0.y.as_int() == 0,
            r.1 == size,
    {
        Rect2(Vector2::new(T::zero(), T::zero()), size)
    }

    /// Constructs a rectangle from a size tuple alone, placing the first
    /// corner at the origin.
    pub fn from_size_tuple(size: (T, T)) -> (r: Rect2<T>)
        ensures
            r.0.x.as_int() == 0,
            r.0.y.as_int() == 0,
            r.1.x == size.0,
            r.1.y == size.1,
    {
        let (x1, y1) = size;
        Rect2(Vector2::new(T::zero(), T::zero()), Vector2::new(x1, y1))
    }

    /// Whether every component of the second corner is at least the
    /// corresponding component of the first.
    pub open spec fn is_ordered_spec(self) -> bool {
        self.1.x.as_int() >= self.0.x.as_int() && self.1.y.as_int() >= self.0.y.as_int()
    }

    /// Whether every component of the second corner is strictly greater than
    /// the corresponding component of the first.
    pub open spec fn is_positive_spec(self) -> bool {
        self.1.x.as_int() > self.0.x.as_int() && self.1.y.as_int() > self.0.y.as_int()
    }

    /// The rectangle with each axis's pair of corner components sorted
    /// ascending, independently per axis.
    pub open spec fn ordered_spec(self) -> Rect2<T> {
        Rect2(
            Vector2 { x: sort_spec(self.0.x, self.1.x).0, y: sort_spec(self.0.y, self.1.y).0 },
            Vector2 { x: sort_spec(self.0.x, self.1.x).1, y: sort_spec(self.0.y, self.1.y).1 },
        )
    }

    /// The smallest rectangle containing both operands when both are
    /// strictly positive, and the left operand unchanged otherwise.
    pub open spec fn expand_spec(self, rhs: Rect2<T>) -> Rect2<T> {
        if !self.is_positive_spec() || !rhs.is_positive_spec() {
            self
        } else {
            Rect2(
                Vector2 { x: partial_min_spec(self.0.x, rhs.0.x), y: partial_min_spec(self.0.y, rhs.0.y) },
                Vector2 { x: partial_max_spec(self.1.x, rhs.1.x), y: partial_max_spec(self.1.y, rhs.1.y) },
            )
        }
    }

    /// The strictly positive overlap of two strictly positive rectangles,
    /// and `None` when either operand or the overlap is not strictly
    /// positive.
    pub open spec fn intersect_spec(self, rhs: Rect2<T>) -> Option<Rect2<T>> {
        if !self.is_positive_spec() || !rhs.is_positive_spec() {
            None
        } else {
            let overlap = Rect2(
                Vector2 { x: partial_max_spec(self.0.x, rhs.0.x), y: partial_max_spec(self.0.y, rhs.0.y) },
                Vector2 { x: partial_min_spec(self.1.x, rhs.1.x), y: partial_min_spec(self.1.y, rhs.1.y) },
            );
            if overlap.is_positive_spec() {
                Some(overlap)
            } else {
                None
            }
        }
    }

    /// Returns true if each component of the second corner is greater than
    /// or equal to the corresponding component of the first.
    pub fn is_partially_ordered(&self) -> (r: bool)
        ensures
            r == self.is_ordered_spec(),
    {
        self.0.x.le(self.1.x) && self.0.y.le(self.1.y)
    }

    /// Returns true if each component of the second corner is greater than
    /// or equal to the corresponding component of the first. The scalar
    /// types' order is total, so this agrees with `is_partially_ordered`.
    pub fn is_ordered(&self) -> (r: bool)
        ensures
            r == self.is_ordered_spec(),
    {
        self.is_partially_ordered()
    }

    /// Returns true if each component of the second corner is strictly
    /// greater than the corresponding component of the first.
    pub fn is_partially_positive(&self) -> (r: bool)
        ensures
            r == self.is_positive_spec(),
    {
        self.0.x.lt(self.1.x) && self.0.y.lt(self.1.y)
    }

    /// Returns true if each component of the second corner is strictly
    /// greater than the corresponding component of the first. The scalar
    /// types' order is total, so this agrees with `is_partially_positive`.
    pub fn is_positive(&self) -> (r: bool)
        ensures
            r == self.is_positive_spec(),
    {
        self.is_partially_positive()
    }

    /// Sorts the corresponding components of the two corners in ascending
    /// order, independently per axis.
    pub fn partially_ordered(self) -> (r: Rect2<T>)
        ensures
            r == self.ordered_spec(),
    {
        let x = sort(self.0.x, self.1.x);
        let y = sort(self.0.y, self.1.y);
        Rect2(Vector2::new(x.0, y.0), Vector2::new(x.1, y.1))
    }

    /// Sorts the corresponding components of the two corners in ascending
    /// order, independently per axis. The scalar types' order is total, so
    /// this agrees with `partially_ordered`.
    pub fn ordered(self) -> (r: Rect2<T>)
        ensures
            r == self.ordered_spec(),
    {
        self.partially_ordered()
    }

    /// Returns the smallest possible rectangle that includes `self` and
    /// `rhs`, assuming that both rectangles are positive. Simply returns
    /// `self` if either rectangle is not positive.
    pub fn expand(self, rhs: Rect2<T>) -> (r: Rect2<T>)
        ensures
            r == self.expand_spec(rhs),
    {
        if !self.is_partially_positive() || !rhs.is_partially_positive() {
            return self;
        }
        Rect2(
            Vector2 { x: partial_min(self.0.x, rhs.0.x), y: partial_min(self.0.y, rhs.0.y) },
            Vector2 { x: partial_max(self.1.x, rhs.1.x), y: partial_max(self.1.y, rhs.1.y) },
        )
    }

    /// Returns the intersection of two positive rectangles. Returns `None`
    /// if either rectangle's points are not ordered or if the rectangles do
    /// not strictly overlap: rectangles sharing only a boundary do not
    /// intersect.
    pub fn intersect(self, rhs: Rect2<T>) -> (r: Option<Rect2<T>>)
        ensures
            r == self.intersect_spec(rhs),
    {
        if !self.is_partially_positive() || !rhs.is_partially_positive() {
            return None;
        }
        let overlap = Rect2(
            Vector2 { x: partial_max(self.0.x, rhs.0.x), y: partial_max(self.0.y, rhs.0.y) },
            Vector2 { x: partial_min(self.1.x, rhs.1.x), y: partial_min(self.1.y, rhs.1.y) },
        );
        if overlap.is_partially_positive() {
            Some(overlap)
        } else {
            None
        }
    }

    /// Returns the difference of the corners' x components.
    pub fn width(&self) -> (r: T)
        requires
            fits::<T>(self.1.x.as_int() - self.0.x.as_int()),
        ensures
            r.as_int() == self.1.x.as_int() - self.0.x.as_int(),
    {
        self.1.x.sub(self.0.x)
    }

    /// Returns the difference of the corners' y components.
    pub fn height(&self) -> (r: T)
        requires
            fits::<T>(self.1.y.as_int() - self.0.y.as_int()),
        ensures
            r.as_int() == self.1.y.as_int() - self.0.y.as_int(),
    {
        self.1.y.sub(self.0.y)
    }

    /// Returns the component-wise difference of the two corners.
    pub fn size(&self) -> (r: Vector2<T>)
        requires
            fits::<T>(self.1.x.as_int() - self.0.x.as_int()),
            fits::<T>(self.1.y.as_int() - self.0.y.as_int()),
        ensures
            r.x.as_int() == self.1.x.as_int() - self.0.x.as_int(),
            r.y.as_int() == self.1.y.as_int() - self.0.y.as_int(),
    {
        self.1.sub(self.0)
    }

    /// Converts the rectangle's scalar components into another scalar type
    /// that can represent each of their values.
    pub fn convert<U: Scalar>(self) -> (r: Rect2<U>)
        requires
            self.0.fits_in::<U>(),
            self.1.fits_in::<U>(),
        ensures
            r.0.x.as_int() == self.0.x.as_int(),
            r.0.y.as_int() == self.0.y.as_int(),
            r.1.x.as_int() == self.1.x.as_int(),
            r.1.y.as_int() == self.1.y.as_int(),
    {
        Rect2(self.0.convert(), self.1.convert())
    }

    /// Converts the rectangle's scalar components into another scalar type,
    /// reading through a reference.
    pub fn ref_convert<U: Scalar>(&self) -> (r: Rect2<U>)
        requires
            self.0.fits_in::<U>(),
            self.1.fits_in::<U>(),
        ensures
            r.0.x.as_int() == self.0.x.as_int(),
            r.0.y.as_int() == self.0.y.as_int(),
            r.1.x.as_int() == self.1.x.as_int(),
            r.1.y.as_int() == self.1.y.as_int(),
    {
        Rect2(self.0.ref_convert(), self.1.ref_convert())
    }

    /// Attempts to convert the rectangle's scalar components into another
    /// scalar type. On failure, this returns the error of the first
    /// component (first corner before second, in x, y, z order) whose value
    /// the target type cannot represent.
    pub fn try_convert<U: Scalar>(self) -> (r: Result<Rect2<U>, ConvertError>)
        ensures
            match r {
                Ok(v) => self.0.fits_in::<U>() && self.1.fits_in::<U>()
                    && v.0.x.as_int() == self.0.x.as_int()
                    && v.0.y.as_int() == self.0.y.as_int()
                    && v.1.x.as_int() == self.1.x.as_int()
                    && v.1.y.as_int() == self.1.y.as_int(),
                Err(e) => !(self.0.fits_in::<U>() && self.1.fits_in::<U>()),
            },
    {
        let p0 = match self.0.try_convert() {
            Ok(v) => v,
            Err(e) => {
                return Err(e);
            },
        };
        let p1 = match self.1.try_convert() {
            Ok(v) => v,
            Err(e) => {
                return Err(e);
            },
        };
        Ok(Rect2(p0, p1))
    }

    /// Attempts to convert the rectangle's scalar components into another
    /// scalar type, reading through a reference.
    pub fn try_ref_convert<U: Scalar>(&self) -> (r: Result<Rect2<U>, ConvertError>)
        ensures
            match r {
                Ok(v) => self.0.fits_in::<U>() && self.1.fits_in::<U>()
                    && v.0.x.as_int() == self.0.x.as_int()
                    && v.0.y.as_int() == self.0.y.as_int()
                    && v.1.x.as_int() == self.1.x.as_int()
                    && v.1.y.as_int() == self.1.y.as_int(),
                Err(e) => !(self.0.fits_in::<U>() && self.1.fits_in::<U>()),
            },
    {
        (*self).try_convert()
    }
}

impl<T: Scalar> Rect2<T> {
    /// Corner-wise negation.
    pub fn neg(self) -> (r: Rect2<T>)
        requires
            fits::<T>(-self.0.x.as_int()),
            fits::<T>(-self.0.y.as_int()),
            fits::<T>(-self.1.x.as_int()),
            fits::<T>(-self.1.y.as_int()),
        ensures
            r.0.x.as_int() == -self.0.x.as_int(),
            r.0.y.as_int() == -self.0.y.as_int(),
            r.1.x.as_int() == -self.1.x.as_int(),
            r.1.y.as_int() == -self.1.y.as_int(),
    {
        Rect2(self.0.neg(), self.1.neg())
    }

    /// Addition of a vector to both corners.
    pub fn add(self, rhs: Vector2<T>) -> (r: Rect2<T>)
        requires
            fits::<T>(self.0.x.as_int() + rhs.x.as_int()),
            fits::<T>(self.0.y.as_int() + rhs.y.as_int()),
            fits::<T>(self.1.x.as_int() + rhs.x.as_int()),
            fits::<T>(self.1.y.as_int() + rhs.y.as_int()),
        ensures
            r.0.x.as_int() == self.0.x.as_int() + rhs.x.as_int(),
            r.0.y.as_int() == self.0.y.as_int() + rhs.y.as_int(),
            r.1.x.as_int() == self.1.x.as_int() + rhs.x.as_int(),
            r.1.y.as_int() == self.1.y.as_int() + rhs.y.as_int(),
    {
        Rect2(self.0.add(rhs), self.1.add(rhs))
    }

    /// Subtraction of a vector from both corners.
    pub fn sub(self, rhs: Vector2<T>) -> (r: Rect2<T>)
        requires
            fits::<T>(self.0.x.as_int() - rhs.x.as_int()),
            fits::<T>(self.0.y.as_int() - rhs.y.as_int()),
            fits::<T>(self.1.x.as_int() - rhs.x.as_int()),
            fits::<T>(self.1.y.as_int() - rhs.y.as_int()),
        ensures
            r.0.x.as_int() == self.0.x.as_int() - rhs.x.as_int(),
            r.0.y.as_int() == self.0.y.as_int() - rhs.y.as_int(),
            r.1.x.as_int() == self.1.x.as_int() - rhs.x.as_int(),
            r.1.y.as_int() == self.1.y.as_int() - rhs.y.as_int(),
    {
        Rect2(self.0.sub(rhs), self.1.sub(rhs))
    }

    /// Multiplication of both corners by a vector, component-wise.
    pub fn mul(self, rhs: Vector2<T>) -> (r: Rect2<T>)
        requires
            fits::<T>(self.0.x.as_int() * rhs.x.as_int()),
            fits::<T>(self.0.y.as_int() * rhs.y.as_int()),
            fits::<T>(self.1.x.as_int() * rhs.x.as_int()),
            fits::<T>(self.1.y.as_int() * rhs.y.as_int()),
        ensures
            r.0.x.as_int() == self.0.x.as_int() * rhs.x.as_int(),
            r.0.y.as_int() == self.0.y.as_int() * rhs.y.as_int(),
            r.1.x.as_int() == self.1.x.as_int() * rhs.x.as_int(),
            r.1.y.as_int() == self.1.y.as_int() * rhs.y.as_int(),
    {
        Rect2(self.0.mul(rhs), self.1.mul(rhs))
    }

    /// Division of both corners by a vector, component-wise, truncating
    /// toward zero.
    pub fn div(self, rhs: Vector2<T>) -> (r: Rect2<T>)
        requires
            rhs.x.as_int() != 0,
            rhs.y.as_int() != 0,
            fits::<T>(trunc_div(self.0.x.as_int(), rhs.x.as_int())),
            fits::<T>(trunc_div(self.0.y.as_int(), rhs.y.as_int())),
            fits::<T>(trunc_div(self.1.x.as_int(), rhs.x.as_int())),
            fits::<T>(trunc_div(self.1.y.as_int(), rhs.y.as_int())),
        ensures
            r.0.x.as_int() == trunc_div(self.0.x.as_int(), rhs.x.as_int()),
            r.0.y.as_int() == trunc_div(self.0.y.as_int(), rhs.y.as_int()),
            r.1.x.as_int() == trunc_div(self.1.x.as_int(), rhs.x.as_int()),
            r.1.y.as_int() == trunc_div(self.1.y.as_int(), rhs.y.as_int()),
    {
        Rect2(self.0.div(rhs), self.1.div(rhs))
    }

    /// Multiplication of every component by a broadcast scalar.
    pub fn mul_scalar(self, rhs: T) -> (r: Rect2<T>)
        requires
            fits::<T>(self.0.x.as_int() * rhs.as_int()),
            fits::<T>(self.0.y.as_int() * rhs.as_int()),
            fits::<T>(self.1.x.as_int() * rhs.as_int()),
            fits::<T>(self.1.y.as_int() * rhs.as_int()),
        ensures
            r.0.x.as_int() == self.0.x.as_int() * rhs.as_int(),
            r.0.y.as_int() == self.0.y.as_int() * rhs.as_int(),
            r.1.x.as_int() == self.1.x.as_int() * rhs.as_int(),
            r.1.y.as_int() == self.1.y.as_int() * rhs.as_int(),
    {
        Rect2(self.0.mul_scalar(rhs), self.1.mul_scalar(rhs))
    }

    /// Division of every component by a broadcast scalar, truncating
    /// toward zero.
    pub fn div_scalar(self, rhs: T) -> (r: Rect2<T>)
        requires
            rhs.as_int() != 0,
            fits::<T>(trunc_div(self.0.x.as_int(), rhs.as_int())),
            fits::<T>(trunc_div(self.0.y.as_int(), rhs.as_int())),
            fits::<T>(trunc_div(self.1.x.as_int(), rhs.as_int())),
            fits::<T>(trunc_div(self.1.y.as_int(), rhs.as_int())),
        ensures
            r.0.x.as_int() == trunc_div(self.0.x.as_int(), rhs.as_int()),
            r.0.y.as_int() == trunc_div(self.0.y.as_int(), rhs.as_int()),
            r.1.x.as_int() == trunc_div(self.1.x.as_int(), rhs.as_int()),
            r.1.y.as_int() == trunc_div(self.1.y.as_int(), rhs.as_int()),
    {
        Rect2(self.0.div_scalar(rhs), self.1.div_scalar(rhs))
    }

    /// In-place addition of a vector to both corners.
    pub fn add_assign(&mut self, rhs: Vector2<T>)
        requires
            fits::<T>(old(self).0.x.as_int() + rhs.x.as_int()),
            fits::<T>(old(self).0.y.as_int() + rhs.y.as_int()),
            fits::<T>(old(self).1.x.as_int() + rhs.x.as_int()),
            fits::<T>(old(self).1.y.as_int() + rhs.y.as_int()),
        ensures
            final(self).0.x.as_int() == old(self).0.x.as_int() + rhs.x.as_int(),
            final(self).0.y.as_int() == old(self).0.y.as_int() + rhs.y.as_int(),
            final(self).1.x.as_int() == old(self).1.x.as_int() + rhs.x.as_int(),
            final(self).1.y.as_int() == old(self).1.y.as_int() + rhs.y.as_int(),
    {
        self.0.add_assign(rhs);
        self.1.add_assign(rhs);
    }

    /// In-place subtraction of a vector from both corners.
    pub fn sub_assign(&mut self, rhs: Vector2<T>)
        requires
            fits::<T>(old(self).0.x.as_int() - rhs.x.as_int()),
            fits::<T>(old(self).0.y.as_int() - rhs.y.as_int()),
            fits::<T>(old(self).1.x.as_int() - rhs.x.as_int()),
            fits::<T>(old(self).1.y.as_int() - rhs.y.as_int()),
        ensures
            final(self).0.x.as_int() == old(self).0.x.as_int() - rhs.x.as_int(),
            final(self).0.y.as_int() == old(self).0.y.as_int() - rhs.y.as_int(),
            final(self).1.x.as_int() == old(self).1.x.as_int() - rhs.x.as_int(),
            final(self).1.y.as_int() == old(self).1.y.as_int() - rhs.y.as_int(),
    {
        self.0.sub_assign(rhs);
        self.1.sub_assign(rhs);
    }

    /// In-place multiplication of both corners by a vector.
    pub fn mul_assign(&mut self, rhs: Vector2<T>)
        requires
            fits::<T>(old(self).0.x.as_int() * rhs.x.as_int()),
            fits::<T>(old(self).0.y.as_int() * rhs.y.as_int()),
            fits::<T>(old(self).1.x.as_int() * rhs.x.as_int()),
            fits::<T>(old(self).1.y.as_int() * rhs.y.as_int()),
        ensures
            final(self).0.x.as_int() == old(self).0.x.as_int() * rhs.x.as_int(),
            final(self).0.y.as_int() == old(self).0.y.as_int() * rhs.y.as_int(),
            final(self).1.x.as_int() == old(self).1.x.as_int() * rhs.x.as_int(),
            final(self).1.y.as_int() == old(self).1.y.as_int() * rhs.y.as_int(),
    {
        self.0.mul_assign(rhs);
        self.1.mul_assign(rhs);
    }

    /// In-place division of both corners by a vector.
    pub fn div_assign(&mut self, rhs: Vector2<T>)
        requires
            rhs.x.as_int() != 0,
            rhs.y.as_int() != 0,
            fits::<T>(trunc_div(old(self).0.x.as_int(), rhs.x.as_int())),
            fits::<T>(trunc_div(old(self).0.y.as_int(), rhs.y.as_int())),
            fits::<T>(trunc_div(old(self).1.x.as_int(), rhs.x.as_int())),
            fits::<T>(trunc_div(old(self).1.y.as_int(), rhs.y.as_int())),
        ensures
            final(self).0.x.as_int() == trunc_div(old(self).0.x.as_int(), rhs.x.as_int()),
            final(self).0.y.as_int() == trunc_div(old(self).0.y.as_int(), rhs.y.as_int()),
            final(self).1.x.as_int() == trunc_div(old(self).1.x.as_int(), rhs.x.as_int()),
            final(self).1.y.as_int() == trunc_div(old(self).1.y.as_int(), rhs.y.as_int()),
    {
        self.0.div_assign(rhs);
        self.1.div_assign(rhs);
    }

    /// In-place multiplication of every component by a broadcast scalar.
    pub fn mul_assign_scalar(&mut self, rhs: T)
        requires
            fits::<T>(old(self).0.x.as_int() * rhs.as_int()),
            fits::<T>(old(self).0.y.as_int() * rhs.as_int()),
            fits::<T>(old(self).1.x.as_int() * rhs.as_int()),
            fits::<T>(old(self).1.y.as_int() * rhs.as_int()),
        ensures
            final(self).0.x.as_int() == old(self).0.x.as_int() * rhs.as_int(),
            final(self).0.y.as_int() == old(self).0.y.as_int() * rhs.as_int(),
            final(self).1.x.as_int() == old(self).1.x.as_int() * rhs.as_int(),
            final(self).1.y.as_int() == old(self).1.y.as_int() * rhs.as_int(),
    {
        self.0.mul_assign_scalar(rhs);
        self.1.mul_assign_scalar(rhs);
    }

    /// In-place division of every component by a broadcast scalar.
    pub fn div_assign_scalar(&mut self, rhs: T)
        requires
            rhs.as_int() != 0,
            fits::<T>(trunc_div(old(self).0.x.as_int(), rhs.as_int())),
            fits::<T>(trunc_div(old(self).0.y.as_int(), rhs.as_int())),
            fits::<T>(trunc_div(old(self).1.x.as_int(), rhs.as_int())),
            fits::<T>(trunc_div(old(self).1.y.as_int(), rhs.as_int())),
        ensures
            final(self).0.x.as_int() == trunc_div(old(self).0.x.as_int(), rhs.as_int()),
            final(self).0.y.as_int() == trunc_div(old(self).0.y.as_int(), rhs.as_int()),
            final(self).1.x.as_int() == trunc_div(old(self).1.x.as_int(), rhs.as_int()),
            final(self).1.y.as_int() == trunc_div(old(self).1.y.as_int(), rhs.as_int()),
    {
        self.0.div_assign_scalar(rhs);
        self.1.div_assign_scalar(rhs);
    }
}

/// Expanding a strictly positive rectangle with itself leaves it unchanged.
pub proof fn lemma_expand_self_rect2<T: Scalar>(r: Rect2<T>)
    requires
        r.is_positive_spec(),
    ensures
        r.expand_spec(r) == r,
{
}

/// 3-dimensional, axis-aligned rectangular prism structure defined as two opposite points.
#[derive(Clone, Copy, Debug, Eq, Hash, PartialEq, Structural)]
pub struct Rect3<T>(pub Vector3<T>, pub Vector3<T>);

impl<T> Rect3<T> {
    /// Constructs a rectangle from decomposed vectors.
    pub fn new(x0: T, y0: T, z0: T, x1: T, y1: T, z1: T) -> (r: Rect3<T>)
        ensures
            r.0.x == x0,
            r.0.y == y0,
            r.0.z == z0,
            r.1.x == x1,
            r.1.y == y1,
            r.1.z == z1,
    {
        Rect3(Vector3::new(x0, y0, z0), Vector3::new(x1, y1, z1))
    }

    /// Constructs a rectangle from a flat tuple of both corners' components.
    pub fn from_tuple(t: (T, T, T, T, T, T)) -> (r: Rect3<T>)
        ensures
            r.0.x == t.0,
            r.0.y == t.1,
            r.0.z == t.2,
            r.1.x == t.3,
            r.1.y == t.4,
            r.1.z == t.5,
    {
        let (x0, y0, z0, x1, y1, z1) = t;
        Rect3(Vector3::new(x0, y0, z0), Vector3::new(x1, y1, z1))
    }
}

impl<T: Scalar> Rect3<T> {
    /// Constructs a rectangle from a size alone, placing the first corner at
    /// the origin.
    pub fn from_size(size: Vector3<T>) -> (r: Rect3<T>)
        ensures
            r.0.x.as_int() == 0,
            r.0.y.as_int() == 0,
            r.0.z.as_int() == 0,
            r.1 == size,
    {
        Rect3(Vector3::new(T::zero(), T::zero(), T::zero()), size)
    }

    /// Constructs a rectangle from a size tuple alone, placing the first
    /// corner at the origin.
    pub fn from_size_tuple(size: (T, T, T)) -> (r: Rect3<T>)
        ensures
            r.0.x.as_int() == 0,
            r.0.y.as_int() == 0,
            r.0.z.as_int() == 0,
            r.1.x == size.0,
            r.1.y == size.1,
            r.1.z == size.2,
    {
        let (x1, y1, z1) = size;
        Rect3(Vector3::new(T::zero(), T::zero(), T::zero()), Vector3::new(x1, y1, z1))
    }

    /// Whether every component of the second corner is at least the
    /// corresponding component of the first.
    pub open spec fn is_ordered_spec(self) -> bool {
        self.1.x.as_int() >= self.0.x.as_int() && self.1.y.as_int() >= self.0.y.as_int() && self.1.z.as_int() >= self.0.z.as_int()
    }

    /// Whether every component of the second corner is strictly greater than
    /// the corresponding component of the first.
    pub open spec fn is_positive_spec(self) -> bool {
        self.1.x.as_int() > self.0.x.as_int() && self.1.y.as_int() > self.0.y.as_int() && self.1.z.as_int() > self.0.z.as_int()
    }

    /// The rectangle with each axis's pair of corner components sorted
    /// ascending, independently per axis.
    pub open spec fn ordered_spec(self) -> Rect3<T> {
        Rect3(
            Vector3 { x: sort_spec(self.0.x, self.1.x).0, y: sort_spec(self.0.y, self.1.y).0, z: sort_spec(self.0.z, self.1.z).0 },
            Vector3 { x: sort_spec(self.0.x, self.1.x).1, y: sort_spec(self.0.y, self.1.y).1, z: sort_spec(self.0.z, self.1.z).1 },
        )
    }

    /// The smallest rectangle containing both operands when both are
    /// strictly positive, and the left operand unchanged otherwise.
    pub open spec fn expand_spec(self, rhs: Rect3<T>) -> Rect3<T> {
        if !self.is_positive_spec() || !rhs.is_positive_spec() {
            self
        } else {
            Rect3(
                Vector3 { x: partial_min_spec(self.0.x, rhs.0.x), y: partial_min_spec(self.0.y, rhs.0.y), z: partial_min_spec(self.0.z, rhs.0.z) },
                Vector3 { x: partial_max_spec(self.1.x, rhs.1.x), y: partial_max_spec(self.1.y, rhs.1.y), z: partial_max_spec(self.1.z, rhs.1.z) },
            )
        }
    }

    /// The strictly positive overlap of two strictly positive rectangles,
    /// and `None` when either operand or the overlap is not strictly
    /// positive.
    pub open spec fn intersect_spec(self, rhs: Rect3<T>) -> Option<Rect3<T>> {
        if !self.is_positive_spec() || !rhs.is_positive_spec() {
            None
        } else {
            let overlap = Rect3(
                Vector3 { x: partial_max_spec(self.0.x, rhs.0.x), y: partial_max_spec(self.0.y, rhs.0.y), z: partial_max_spec(self.0.z, rhs.0.z) },
                Vector3 { x: partial_min_spec(self.1.x, rhs.1.x), y: partial_min_spec(self.1.y, rhs.1.y), z: partial_min_spec(self.1.z, rhs.1.z) },
            );
            if overlap.is_positive_spec() {
                Some(overlap)
            } else {
                None
            }
        }
    }

    /// Returns true if each component of the second corner is greater than
    /// or equal to the corresponding component of the first.
    pub fn is_partially_ordered(&self) -> (r: bool)
        ensures
            r == self.is_ordered_spec(),
    {
        self.0.x.le(self.1.x) && self.0.y.le(self.1.y) && self.0.z.le(self.1.z)
    }

    /// Returns true if each component of the second corner is greater than
    /// or equal to the corresponding component of the first. The scalar
    /// types' order is total, so this agrees with `is_partially_ordered`.
    pub fn is_ordered(&self) -> (r: bool)
        ensures
            r == self.is_ordered_spec(),
    {
        self.is_partially_ordered()
    }

    /// Returns true if each component of the second corner is strictly
    /// greater than the corresponding component of the first.
    pub fn is_partially_positive(&self) -> (r: bool)
        ensures
            r == self.is_positive_spec(),
    {
        self.0.x.lt(self.1.x) && self.0.y.lt(self.1.y) && self.0.z.lt(self.1.z)
    }

    /// Returns true if each component of the second corner is strictly
    /// greater than the corresponding component of the first. The scalar
    /// types' order is total, so this agrees with `is_partially_positive`.
    pub fn is_positive(&self) -> (r: bool)
        ensures
            r == self.is_positive_spec(),
    {
        self.is_partially_positive()
    }

    /// Sorts the corresponding components of the two corners in ascending
    /// order, independently per axis.
    pub fn partially_ordered(self) -> (r: Rect3<T>)
        ensures
            r == self.ordered_spec(),
    {
        let x = sort(self.0.x, self.1.x);
        let y = sort(self.0.y, self.1.y);
        let z = sort(self.0.z, self.1.z);
        Rect3(Vector3::new(x.0, y.0, z.0), Vector3::new(x.1, y.1, z.1))
    }

    /// Sorts the corresponding components of the two corners in ascending
    /// order, independently per axis. The scalar types' order is total, so
    /// this agrees with `partially_ordered`.
    pub fn ordered(self) -> (r: Rect3<T>)
        ensures
            r == self.ordered_spec(),
    {
        self.partially_ordered()
    }

    /// Returns the smallest possible rectangle that includes `self` and
    /// `rhs`, assuming that both rectangles are positive. Simply returns
    /// `self` if either rectangle is not positive.
    pub fn expand(self, rhs: Rect3<T>) -> (r: Rect3<T>)
        ensures
            r == self.expand_spec(rhs),
    {
        if !self.is_partially_positive() || !rhs.is_partially_positive() {
            return self;
        }
        Rect3(
            Vector3 { x: partial_min(self.0.x, rhs.0.x), y: partial_min(self.0.y, rhs.0.y), z: partial_min(self.0.z, rhs.0.z) },
            Vector3 { x: partial_max(self.1.x, rhs.1.x), y: partial_max(self.1.y, rhs.1.y), z: partial_max(self.1.z, rhs.1.z) },
        )
    }

    /// Returns the intersection of two positive rectangles. Returns `None`
    /// if either rectangle's points are not ordered or if the rectangles do
    /// not strictly overlap: rectangles sharing only a boundary do not
    /// intersect.
    pub fn intersect(self, rhs: Rect3<T>) -> (r: Option<Rect3<T>>)
        ensures
            r == self.intersect_spec(rhs),
    {
        if !self.is_partially_positive() || !rhs.is_partially_positive() {
            return None;
        }
        let overlap = Rect3(
            Vector3 { x: partial_max(self.0.x, rhs.0.x), y: partial_max(self.0.y, rhs.0.y), z: partial_max(self.0.z, rhs.0.z) },
            Vector3 { x: partial_min(self.1.x, rhs.1.x), y: partial_min(self.1.y, rhs.1.y), z: partial_min(self.1.z, rhs.1.z) },
        );
        if overlap.is_partially_positive() {
            Some(overlap)
        } else {
            None
        }
    }

    /// Returns the difference of the corners' x components.
    pub fn width(&self) -> (r: T)
        requires
            fits::<T>(self.1.x.as_int() - self.0.x.as_int()),
        ensures
            r.as_int() == self.1.x.as_int() - self.0.x.as_int(),
    {
        self.1.x.sub(self.0.x)
    }

    /// Returns the difference of the corners' y components.
    pub fn height(&self) -> (r: T)
        requires
            fits::<T>(self.1.y.as_int() - self.0.y.as_int()),
        ensures
            r.as_int() == self.1.y.as_int() - self.0.y.as_int(),
    {
        self.1.y.sub(self.0.y)
    }

    /// Returns the component-wise difference of the two corners.
    pub fn size(&self) -> (r: Vector3<T>)
        requires
            fits::<T>(self.1.x.as_int() - self.0.x.as_int()),
            fits::<T>(self.1.y.as_int() - self.0.y.as_int()),
            fits::<T>(self.1.z.as_int() - self.0.z.as_int()),
        ensures
            r.x.as_int() == self.1.x.as_int() - self.0.x.as_int(),
            r.y.as_int() == self.1.y.as_int() - self.0.y.as_int(),
            r.z.as_int() == self.1.z.as_int() - self.0.z.as_int(),
    {
        self.1.sub(self.0)
    }

    /// Converts the rectangle's scalar components into another scalar type
    /// that can represent each of their values.
    pub fn convert<U: Scalar>(self) -> (r: Rect3<U>)
        requires
            self.0.fits_in::<U>(),
            self.1.fits_in::<U>(),
        ensures
            r.0.x.as_int() == self.0.x.as_int(),
            r.0.y.as_int() == self.0.y.as_int(),
            r.0.z.as_int() == self.0.z.as_int(),
            r.1.x.as_int() == self.1.x.as_int(),
            r.1.y.as_int() == self.1.y.as_int(),
            r.1.z.as_int() == self.1.z.as_int(),
    {
        Rect3(self.0.convert(), self.1.convert())
    }

    /// Converts the rectangle's scalar components into another scalar type,
    /// reading through a reference.
    pub fn ref_convert<U: Scalar>(&self) -> (r: Rect3<U>)
        requires
            self.0.fits_in::<U>(),
            self.1.fits_in::<U>(),
        ensures
            r.0.x.as_int() == self.0.x.as_int(),
            r.0.y.as_int() == self.0.y.as_int(),
            r.0.z.as_int() == self.0.z.as_int(),
            r.1.x.as_int() == self.1.x.as_int(),
            r.1.y.as_int() == self.1.y.as_int(),
            r.1.z.as_int() == self.1.z.as_int(),
    {
        Rect3(self.0.ref_convert(), self.1.ref_convert())
    }

    /// Attempts to convert the rectangle's scalar components into another
    /// scalar type. On failure, this returns the error of the first
    /// component (first corner before second, in x, y, z order) whose value
    /// the target type cannot represent.
    pub fn try_convert<U: Scalar>(self) -> (r: Result<Rect3<U>, ConvertError>)
        ensures
            match r {
                Ok(v) => self.0.fits_in::<U>() && self.1.fits_in::<U>()
                    && v.0.x.as_int() == self.0.x.as_int()
                    && v.0.y.as_int() == self.0.y.as_int()
                    && v.0.z.as_int() == self.0.z.as_int()
                    && v.1.x.as_int() == self.1.x.as_int()
                    && v.1.y.as_int() == self.1.y.as_int()
                    && v.1.z.as_int() == self.1.z.as_int(),
                Err(e) => !(self.0.fits_in::<U>() && self.1.fits_in::<U>()),
            },
    {
        let p0 = match self.0.try_convert() {
            Ok(v) => v,
            Err(e) => {
                return Err(e);
            },
        };
        let p1 = match self.1.try_convert() {
            Ok(v) => v,
            Err(e) => {
                return Err(e);
            },
        };
        Ok(Rect3(p0, p1))
    }

    /// Attempts to convert the rectangle's scalar components into another
    /// scalar type, reading through a reference.
    pub fn try_ref_convert<U: Scalar>(&self) -> (r: Result<Rect3<U>, ConvertError>)
        ensures
            match r {
                Ok(v) => self.0.fits_in::<U>() && self.1.fits_in::<U>()
                    && v.0.x.as_int() == self.0.x.as_int()
                    && v.0.y.as_int() == self.0.y.as_int()
                    && v.0.z.as_int() == self.0.z.as_int()
                    && v.1.x.as_int() == self.1.x.as_int()
                    && v.1.y.as_int() == self.1.y.as_int()
                    && v.1.z.as_int() == self.1.z.as_int(),
                Err(e) => !(self.0.fits_in::<U>() && self.1.fits_in::<U>()),
            },
    {
        (*self).try_convert()
    }
}

impl<T: Scalar> Rect3<T> {
    /// Corner-wise negation.
    pub fn neg(self) -> (r: Rect3<T>)
        requires
            fits::<T>(-self.0.x.as_int()),
            fits::<T>(-self.0.y.as_int()),
            fits::<T>(-self.0.z.as_int()),
            fits::<T>(-self.1.x.as_int()),
            fits::<T>(-self.1.y.as_int()),
            fits::<T>(-self.1.z.as_int()),
        ensures
            r.0.x.as_int() == -self.0.x.as_int(),
            r.0.y.as_int() == -self.0.y.as_int(),
            r.0.z.as_int() == -self.0.z.as_int(),
            r.1.x.as_int() == -self.1.x.as_int(),
            r.1.y.as_int() == -self.1.y.as_int(),
            r.1.z.as_int() == -self.1.z.as_int(),
    {
        Rect3(self.0.neg(), self.1.neg())
    }

    /// Addition of a vector to both corners.
    pub fn add(self, rhs: Vector3<T>) -> (r: Rect3<T>)
        requires
            fits::<T>(self.0.x.as_int() + rhs.x.as_int()),
            fits::<T>(self.0.y.as_int() + rhs.y.as_int()),
            fits::<T>(self.0.z.as_int() + rhs.z.as_int()),
            fits::<T>(self.1.x.as_int() + rhs.x.as_int()),
            fits::<T>(self.1.y.as_int() + rhs.y.as_int()),
            fits::<T>(self.1.z.as_int() + rhs.z.as_int()),
        ensures
            r.0.x.as_int() == self.0.x.as_int() + rhs.x.as_int(),
            r.0.y.as_int() == self.0.y.as_int() + rhs.y.as_int(),
            r.0.z.as_int() == self.0.z.as_int() + rhs.z.as_int(),
            r.1.x.as_int() == self.1.x.as_int() + rhs.x.as_int(),
            r.1.y.as_int() == self.1.y.as_int() + rhs.y.as_int(),
            r.1.z.as_int() == self.1.z.as_int() + rhs.z.as_int(),
    {
        Rect3(self.0.add(rhs), self.1.add(rhs))
    }

    /// Subtraction of a vector from both corners.
    pub fn sub(self, rhs: Vector3<T>) -> (r: Rect3<T>)
        requires
            fits::<T>(self.0.x.as_int() - rhs.x.as_int()),
            fits::<T>(self.0.y.as_int() - rhs.y.as_int()),
            fits::<T>(self.0.z.as_int() - rhs.z.as_int()),
            fits::<T>(self.1.x.as_int() - rhs.x.as_int()),
            fits::<T>(self.1.y.as_int() - rhs.y.as_int()),
            fits::<T>(self.1.z.as_int() - rhs.z.as_int()),
        ensures
            r.0.x.as_int() == self.0.x.as_int() - rhs.x.as_int(),
            r.0.y.as_int() == self.0.y.as_int() - rhs.y.as_int(),
            r.0.z.as_int() == self.0.z.as_int() - rhs.z.as_int(),
            r.1.x.as_int() == self.1.x.as_int() - rhs.x.as_int(),
            r.1.y.as_int() == self.1.y.as_int() - rhs.y.as_int(),
            r.1.z.as_int() == self.1.z.as_int() - rhs.z.as_int(),
    {
        Rect3(self.0.sub(rhs), self.1.sub(rhs))
    }

    /// Multiplication of both corners by a vector, component-wise.
    pub fn mul(self, rhs: Vector3<T>) -> (r: Rect3<T>)
        requires
            fits::<T>(self.0.x.as_int() * rhs.x.as_int()),
            fits::<T>(self.0.y.as_int() * rhs.y.as_int()),
            fits::<T>(self.0.z.as_int() * rhs.z.as_int()),
            fits::<T>(self.1.x.as_int() * rhs.x.as_int()),
            fits::<T>(self.1.y.as_int() * rhs.y.as_int()),
            fits::<T>(self.1.z.as_int() * rhs.z.as_int()),
        ensures
            r.0.x.as_int() == self.0.x.as_int() * rhs.x.as_int(),
            r.0.y.as_int() == self.0.y.as_int() * rhs.y.as_int(),
            r.0.z.as_int() == self.0.z.as_int() * rhs.z.as_int(),
            r.1.x.as_int() == self.1.x.as_int() * rhs.x.as_int(),
            r.1.y.as_int() == self.1.y.as_int() * rhs.y.as_int(),
            r.1.z.as_int() == self.1.z.as_int() * rhs.z.as_int(),
    {
        Rect3(self.0.mul(rhs), self.1.mul(rhs))
    }

    /// Division of both corners by a vector, component-wise, truncating
    /// toward zero.
    pub fn div(self, rhs: Vector3<T>) -> (r: Rect3<T>)
        requires
            rhs.x.as_int() != 0,
            rhs.y.as_int() != 0,
            rhs.z.as_int() != 0,
            fits::<T>(trunc_div(self.0.x.as_int(), rhs.x.as_int())),
            fits::<T>(trunc_div(self.0.y.as_int(), rhs.y.as_int())),
            fits::<T>(trunc_div(self.0.z.as_int(), rhs.z.as_int())),
            fits::<T>(trunc_div(self.1.x.as_int(), rhs.x.as_int())),
            fits::<T>(trunc_div(self.1.y.as_int(), rhs.y.as_int())),
            fits::<T>(trunc_div(self.1.z.as_int(), rhs.z.as_int())),
        ensures
            r.0.x.as_int() == trunc_div(self.0.x.as_int(), rhs.x.as_int()),
            r.0.y.as_int() == trunc_div(self.0.y.as_int(), rhs.y.as_int()),
            r.0.z.as_int() == trunc_div(self.0.z.as_int(), rhs.z.as_int()),
            r.1.x.as_int() == trunc_div(self.1.x.as_int(), rhs.x.as_int()),
            r.1.y.as_int() == trunc_div(self.1.y.as_int(), rhs.y.as_int()),
            r.1.z.as_int() == trunc_div(self.1.z.as_int(), rhs.z.as_int()),
    {
        Rect3(self.0.div(rhs), self.1.div(rhs))
    }

    /// Multiplication of every component by a broadcast scalar.
    pub fn mul_scalar(self, rhs: T) -> (r: Rect3<T>)
        requires
            fits::<T>(self.0.x.as_int() * rhs.as_int()),
            fits::<T>(self.0.y.as_int() * rhs.as_int()),
            fits::<T>(self.0.z.as_int() * rhs.as_int()),
            fits::<T>(self.1.x.as_int() * rhs.as_int()),
            fits::<T>(self.1.y.as_int() * rhs.as_int()),
            fits::<T>(self.1.z.as_int() * rhs.as_int()),
        ensures
            r.0.x.as_int() == self.0.x.as_int() * rhs.as_int(),
            r.0.y.as_int() == self.0.y.as_int() * rhs.as_int(),
            r.0.z.as_int() == self.0.z.as_int() * rhs.as_int(),
            r.1.x.as_int() == self.1.x.as_int() * rhs.as_int(),
            r.1.y.as_int() == self.1.y.as_int() * rhs.as_int(),
            r.1.z.as_int() == self.1.z.as_int() * rhs.as_int(),
    {
        Rect3(self.0.mul_scalar(rhs), self.1.mul_scalar(rhs))
    }

    /// Division of every component by a broadcast scalar, truncating
    /// toward zero.
    pub fn div_scalar(self, rhs: T) -> (r: Rect3<T>)
        requires
            rhs.as_int() != 0,
            fits::<T>(trunc_div(self.0.x.as_int(), rhs.as_int())),
            fits::<T>(trunc_div(self.0.y.as_int(), rhs.as_int())),
            fits::<T>(trunc_div(self.0.z.as_int(), rhs.as_int())),
            fits::<T>(trunc_div(self.1.x.as_int(), rhs.as_int())),
            fits::<T>(trunc_div(self.1.y.as_int(), rhs.as_int())),
            fits::<T>(trunc_div(self.1.z.as_int(), rhs.as_int())),
        ensures
            r.0.x.as_int() == trunc_div(self.0.x.as_int(), rhs.as_int()),
            r.0.y.as_int() == trunc_div(self.0.y.as_int(), rhs.as_int()),
            r.0.z.as_int() == trunc_div(self.0.z.as_int(), rhs.as_int()),
            r.1.x.as_int() == trunc_div(self.1.x.as_int(), rhs.as_int()),
            r.1.y.as_int() == trunc_div(self.1.y.as_int(), rhs.as_int()),
            r.1.z.as_int() == trunc_div(self.1.z.as_int(), rhs.as_int()),
    {
        Rect3(self.0.div_scalar(rhs), self.1.div_scalar(rhs))
    }

    /// In-place addition of a vector to both corners.
    pub fn add_assign(&mut self, rhs: Vector3<T>)
        requires
            fits::<T>(old(self).0.x.as_int() + rhs.x.as_int()),
            fits::<T>(old(self).0.y.as_int() + rhs.y.as_int()),
            fits::<T>(old(self).0.z.as_int() + rhs.z.as_int()),
            fits::<T>(old(self).1.x.as_int() + rhs.x.as_int()),
            fits::<T>(old(self).1.y.as_int() + rhs.y.as_int()),
            fits::<T>(old(self).1.z.as_int() + rhs.z.as_int()),
        ensures
            final(self).0.x.as_int() == old(self).0.x.as_int() + rhs.x.as_int(),
            final(self).0.y.as_int() == old(self).0.y.as_int() + rhs.y.as_int(),
            final(self).0.z.as_int() == old(self).0.z.as_int() + rhs.z.as_int(),
            final(self).1.x.as_int() == old(self).1.x.as_int() + rhs.x.as_int(),
            final(self).1.y.as_int() == old(self).1.y.as_int() + rhs.y.as_int(),
            final(self).1.z.as_int() == old(self).1.z.as_int() + rhs.z.as_int(),
    {
        self.0.add_assign(rhs);
        self.1.add_assign(rhs);
    }

    /// In-place subtraction of a vector from both corners.
    pub fn sub_assign(&mut self, rhs: Vector3<T>)
        requires
            fits::<T>(old(self).0.x.as_int() - rhs.x.as_int()),
            fits::<T>(old(self).0.y.as_int() - rhs.y.as_int()),
            fits::<T>(old(self).0.z.as_int() - rhs.z.as_int()),
            fits::<T>(old(self).1.x.as_int() - rhs.x.as_int()),
            fits::<T>(old(self).1.y.as_int() - rhs.y.as_int()),
            fits::<T>(old(self).1.z.as_int() - rhs.z.as_int()),
        ensures
            final(self).0.x.as_int() == old(self).0.x.as_int() - rhs.x.as_int(),
            final(self).0.y.as_int() == old(self).0.y.as_int() - rhs.y.as_int(),
            final(self).0.z.as_int() == old(self).0.z.as_int() - rhs.z.as_int(),
            final(self).1.x.as_int() == old(self).1.x.as_int() - rhs.x.as_int(),
            final(self).1.y.as_int() == old(self).1.y.as_int() - rhs.y.as_int(),
            final(self).1.z.as_int() == old(self).1.z.as_int() - rhs.z.as_int(),
    {
        self.0.sub_assign(rhs);
        self.1.sub_assign(rhs);
    }

    /// In-place multiplication of both corners by a vector.
    pub fn mul_assign(&mut self, rhs: Vector3<T>)
        requires
            fits::<T>(old(self).0.x.as_int() * rhs.x.as_int()),
            fits::<T>(old(self).0.y.as_int() * rhs.y.as_int()),
            fits::<T>(old(self).0.z.as_int() * rhs.z.as_int()),
            fits::<T>(old(self).1.x.as_int() * rhs.x.as_int()),
            fits::<T>(old(self).1.y.as_int() * rhs.y.as_int()),
            fits::<T>(old(self).1.z.as_int() * rhs.z.as_int()),
        ensures
            final(self).0.x.as_int() == old(self).0.x.as_int() * rhs.x.as_int(),
            final(self).0.y.as_int() == old(self).0.y.as_int() * rhs.y.as_int(),
            final(self).0.z.as_int() == old(self).0.z.as_int() * rhs.z.as_int(),
            final(self).1.x.as_int() == old(self).1.x.as_int() * rhs.x.as_int(),
            final(self).1.y.as_int() == old(self).1.y.as_int() * rhs.y.as_int(),
            final(self).1.z.as_int() == old(self).1.z.as_int() * rhs.z.as_int(),
    {
        self.0.mul_assign(rhs);
        self.1.mul_assign(rhs);
    }

    /// In-place division of both corners by a vector.
    pub fn div_assign(&mut self, rhs: Vector3<T>)
        requires
            rhs.x.as_int() != 0,
            rhs.y.as_int() != 0,
            rhs.z.as_int() != 0,
            fits::<T>(trunc_div(old(self).0.x.as_int(), rhs.x.as_int())),
            fits::<T>(trunc_div(old(self).0.y.as_int(), rhs.y.as_int())),
            fits::<T>(trunc_div(old(self).0.z.as_int(), rhs.z.as_int())),
            fits::<T>(trunc_div(old(self).1.x.as_int(), rhs.x.as_int())),
            fits::<T>(trunc_div(old(self).1.y.as_int(), rhs.y.as_int())),
            fits::<T>(trunc_div(old(self).1.z.as_int(), rhs.z.as_int())),
        ensures
            final(self).0.x.as_int() == trunc_div(old(self).0.x.as_int(), rhs.x.as_int()),
            final(self).0.y.as_int() == trunc_div(old(self).0.y.as_int(), rhs.y.as_int()),
            final(self).0.z.as_int() == trunc_div(old(self).0.z.as_int(), rhs.z.as_int()),
            final(self).1.x.as_int() == trunc_div(old(self).1.x.as_int(), rhs.x.as_int()),
            final(self).1.y.as_int() == trunc_div(old(self).1.y.as_int(), rhs.y.as_int()),
            final(self).1.z.as_int() == trunc_div(old(self).1.z.as_int(), rhs.z.as_int()),
    {
        self.0.div_assign(rhs);
        self.1.div_assign(rhs);
    }

    /// In-place multiplication of every component by a broadcast scalar.
    pub fn mul_assign_scalar(&mut self, rhs: T)
        requires
            fits::<T>(old(self).0.x.as_int() * rhs.as_int()),
            fits::<T>(old(self).0.y.as_int() * rhs.as_int()),
            fits::<T>(old(self).0.z.as_int() * rhs.as_int()),
            fits::<T>(old(self).1.x.as_int() * rhs.as_int()),
            fits::<T>(old(self).1.y.as_int() * rhs.as_int()),
            fits::<T>(old(self).1.z.as_int() * rhs.as_int()),
        ensures
            final(self).0.x.as_int() == old(self).0.x.as_int() * rhs.as_int(),
            final(self).0.y.as_int() == old(self).0.y.as_int() * rhs.as_int(),
            final(self).0.z.as_int() == old(self).0.z.as_int() * rhs.as_int(),
            final(self).1.x.as_int() == old(self).1.x.as_int() * rhs.as_int(),
            final(self).1.y.as_int() == old(self).1.y.as_int() * rhs.as_int(),
            final(self).1.z.as_int() == old(self).1.z.as_int() * rhs.as_int(),
    {
        self.0.mul_assign_scalar(rhs);
        self.1.mul_assign_scalar(rhs);
    }

    /// In-place division of every component by a broadcast scalar.
    pub fn div_assign_scalar(&mut self, rhs: T)
        requires
            rhs.as_int() != 0,
            fits::<T>(trunc_div(old(self).0.x.as_int(), rhs.as_int())),
            fits::<T>(trunc_div(old(self).0.y.as_int(), rhs.as_int())),
            fits::<T>(trunc_div(old(self).0.z.as_int(), rhs.as_int())),
            fits::<T>(trunc_div(old(self).1.x.as_int(), rhs.as_int())),
            fits::<T>(trunc_div(old(self).1.y.as_int(), rhs.as_int())),
            fits::<T>(trunc_div(old(self).1.z.as_int(), rhs.as_int())),
        ensures
            final(self).0.x.as_int() == trunc_div(old(self).0.x.as_int(), rhs.as_int()),
            final(self).0.y.as_int() == trunc_div(old(self).0.y.as_int(), rhs.as_int()),
            final(self).0.z.as_int() == trunc_div(old(self).0.z.as_int(), rhs.as_int()),
            final(self).1.x.as_int() == trunc_div(old(self).1.x.as_int(), rhs.as_int()),
            final(self).1.y.as_int() == trunc_div(old(self).1.y.as_int(), rhs.as_int()),
            final(self).1.z.as_int() == trunc_div(old(self).1.z.as_int(), rhs.as_int()),
    {
        self.0.div_assign_scalar(rhs);
        self.1.div_assign_scalar(rhs);
    }
}

/// Expanding a strictly positive rectangle with itself leaves it unchanged.
pub proof fn lemma_expand_self_rect3<T: Scalar>(r: Rect3<T>)
    requires
        r.is_positive_spec(),
    ensures
        r.expand_spec(r) == r,
{
}

impl<T: Scalar> Rect3<T> {
    /// Returns the difference of the corners' z components.
    pub fn depth(&self) -> (r: T)
        requires
            fits::<T>(self.1.z.as_int() - self.0.z.as_int()),
        ensures
            r.as_int() == self.1.z.as_int() - self.0.z.as_int(),
    {
        self.1.z.sub(self.0.z)
    }
}

} // verus!
