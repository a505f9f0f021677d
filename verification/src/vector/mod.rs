//! Fixed-dimension vector types: ordered tuples of two, three or four
//! same-typed scalar components named `x`, `y`, `z`, `w`, with constructors
//! from flat arguments, tuples and arrays, conversions back, scalar-type
//! conversions, and left-to-right component reductions.

mod ext_ops;
mod ops;

use vstd::prelude::*;

use crate::scalar::{fits, ConvertError, Scalar};

verus! {

/// 2-dimensional vector type.
#[derive(Clone, Copy, Debug, Eq, Hash, PartialEq, Structural)]
pub struct Vector2<T> {
    pub x: T,
    pub y: T,
}

/// Shorthand constructor for [`Vector2`].
pub fn vec2<T>(x: T, y: T) -> (r: Vector2<T>)
    ensures
        r == (Vector2 { x, y }),
{
    Vector2 { x, y }
}

impl<T> Vector2<T> {
    /// Constructs a vector from its scalar parts.
    pub fn new(x: T, y: T) -> (r: Vector2<T>)
        ensures
            r == (Vector2 { x, y }),
    {
        Vector2 { x, y }
    }

    /// Constructs a vector from an equal-length tuple.
    pub fn from_tuple(t: (T, T)) -> (r: Vector2<T>)
        ensures
            r.x == t.0,
            r.y == t.1,
    {
        let (x, y) = t;
        Vector2 { x, y }
    }

    /// Converts the vector into a tuple of its components.
    pub fn into_tuple(self) -> (r: (T, T))
        ensures
            r.0 == self.x,
            r.1 == self.y,
    {
        (self.x, self.y)
    }

    /// Converts the vector into an array of its components.
    pub fn into_array(self) -> (r: [T; 2])
        ensures
            r@[0] == self.x,
            r@[1] == self.y,
    {
        [self.x, self.y]
    }
}

impl<T: Copy> Vector2<T> {
    /// Constructs a vector from a same-length array.
    pub fn from_array(a: [T; 2]) -> (r: Vector2<T>)
        ensures
            r.x == a@[0],
            r.y == a@[1],
    {
        Vector2 { x: a[0], y: a[1] }
    }
}

impl<T: Scalar> Vector2<T> {
    /// Whether every component's value is representable in the scalar type `U`.
    pub open spec fn fits_in<U: Scalar>(self) -> bool {
        fits::<U>(self.x.as_int()) && fits::<U>(self.y.as_int())
    }

    /// Converts the vector's components into another scalar type that can
    /// represent each of their values.
    pub fn convert<U: Scalar>(self) -> (r: Vector2<U>)
        requires
            self.fits_in::<U>(),
        ensures
            r.x.as_int() == self.x.as_int(),
            r.y.as_int() == self.y.as_int(),
    {
        Vector2 {
            x: crate::scalar::convert_scalar(self.x),
            y: crate::scalar::convert_scalar(self.y),
        }
    }

    /// Converts the vector's components into another scalar type, reading
    /// through a reference.
    pub fn ref_convert<U: Scalar>(&self) -> (r: Vector2<U>)
        requires
            self.fits_in::<U>(),
        ensures
            r.x.as_int() == self.x.as_int(),
            r.y.as_int() == self.y.as_int(),
    {
        Vector2 {
            x: crate::scalar::convert_scalar(self.x),
            y: crate::scalar::convert_scalar(self.y),
        }
    }

    /// Attempts to convert the vector's components into another scalar type.
    /// On failure, this returns the error of the first component (in x, y, z,
    /// w order) whose value the target type cannot represent.
    pub fn try_convert<U: Scalar>(self) -> (r: Result<Vector2<U>, ConvertError>)
        ensures
            match r {
                Ok(v) => self.fits_in::<U>()
                    && v.x.as_int() == self.x.as_int()
                    && v.y.as_int() == self.y.as_int(),
                Err(e) => !self.fits_in::<U>(),
            },
    {
        let x = match crate::scalar::try_convert_scalar::<T, U>(self.x) {
            Some(v) => v,
            None => {
                return Err(ConvertError);
            },
        };
        let y = match crate::scalar::try_convert_scalar::<T, U>(self.y) {
            Some(v) => v,
            None => {
                return Err(ConvertError);
            },
        };
        Ok(Vector2 { x, y })
    }

    /// Attempts to convert the vector's components into another scalar type,
    /// reading through a reference.
    pub fn try_ref_convert<U: Scalar>(&self) -> (r: Result<Vector2<U>, ConvertError>)
        ensures
            match r {
                Ok(v) => self.fits_in::<U>()
                    && v.x.as_int() == self.x.as_int()
                    && v.y.as_int() == self.y.as_int(),
                Err(e) => !self.fits_in::<U>(),
            },
    {
        (*self).try_convert()
    }

    /// The sum of the components, folded left to right.
    pub fn sum(self) -> (r: T)
        requires
            fits::<T>(self.x.as_int() + self.y.as_int()),
        ensures
            r.as_int() == self.x.as_int() + self.y.as_int(),
    {
        self.x.add(self.y)
    }

    /// The product of the components, folded left to right.
    pub fn product(self) -> (r: T)
        requires
            fits::<T>(self.x.as_int() * self.y.as_int()),
        ensures
            r.as_int() == self.x.as_int() * self.y.as_int(),
    {
        self.x.mul(self.y)
    }
}

/// Converting a vector into an array and the array back into a vector yields
/// the original vector: `a` holds the components of `v` exactly as
/// `into_array` produces them, and `w` is built from `a` exactly as
/// `from_array` builds it.
pub proof fn lemma_vector2_array_round_trip<T>(v: Vector2<T>, a: [T; 2], w: Vector2<T>)
    requires
        a@[0] == v.x,
        a@[1] == v.y,
        w.x == a@[0],
        w.y == a@[1],
    ensures
        w == v,
{
}

/// Converting a vector into a tuple and the tuple back into a vector yields
/// the original vector.
pub proof fn lemma_vector2_tuple_round_trip<T>(v: Vector2<T>, t: (T, T), w: Vector2<T>)
    requires
        t.0 == v.x,
        t.1 == v.y,
        w.x == t.0,
        w.y == t.1,
    ensures
        w == v,
{
}

/// 3-dimensional vector type.
#[derive(Clone, Copy, Debug, Eq, Hash, PartialEq, Structural)]
pub struct Vector3<T> {
    pub x: T,
    pub y: T,
    pub z: T,
}

/// Shorthand constructor for [`Vector3`].
pub fn vec3<T>(x: T, y: T, z: T) -> (r: Vector3<T>)
    ensures
        r == (Vector3 { x, y, z }),
{
    Vector3 { x, y, z }
}

impl<T> Vector3<T> {
    /// Constructs a vector from its scalar parts.
    pub fn new(x: T, y: T, z: T) -> (r: Vector3<T>)
        ensures
            r == (Vector3 { x, y, z }),
    {
        Vector3 { x, y, z }
    }

    /// Constructs a vector from an equal-length tuple.
    pub fn from_tuple(t: (T, T, T)) -> (r: Vector3<T>)
        ensures
            r.x == t.0,
            r.y == t.1,
            r.z == t.2,
    {
        let (x, y, z) = t;
        Vector3 { x, y, z }
    }

    /// Converts the vector into a tuple of its components.
    pub fn into_tuple(self) -> (r: (T, T, T))
        ensures
            r.0 == self.x,
            r.1 == self.y,
            r.2 == self.z,
    {
        (self.x, self.y, self.z)
    }

    /// Converts the vector into an array of its components.
    pub fn into_array(self) -> (r: [T; 3])
        ensures
            r@[0] == self.x,
            r@[1] == self.y,
            r@[2] == self.z,
    {
        [self.x, self.y, self.z]
    }
}

impl<T: Copy> Vector3<T> {
    /// Constructs a vector from a same-length array.
    pub fn from_array(a: [T; 3]) -> (r: Vector3<T>)
        ensures
            r.x == a@[0],
            r.y == a@[1],
            r.z == a@[2],
    {
        Vector3 { x: a[0], y: a[1], z: a[2] }
    }
}

impl<T: Scalar> Vector3<T> {
    /// Whether every component's value is representable in the scalar type `U`.
    pub open spec fn fits_in<U: Scalar>(self) -> bool {
        fits::<U>(self.x.as_int()) && fits::<U>(self.y.as_int()) && fits::<U>(self.z.as_int())
    }

    /// Converts the vector's components into another scalar type that can
    /// represent each of their values.
    pub fn convert<U: Scalar>(self) -> (r: Vector3<U>)
        requires
            self.fits_in::<U>(),
        ensures
            r.x.as_int() == self.x.as_int(),
            r.y.as_int() == self.y.as_int(),
            r.z.as_int() == self.z.as_int(),
    {
        Vector3 {
            x: crate::scalar::convert_scalar(self.x),
            y: crate::scalar::convert_scalar(self.y),
            z: crate::scalar::convert_scalar(self.z),
        }
    }

    /// Converts the vector's components into another scalar type, reading
    /// through a reference.
    pub fn ref_convert<U: Scalar>(&self) -> (r: Vector3<U>)
        requires
            self.fits_in::<U>(),
        ensures
            r.x.as_int() == self.x.as_int(),
            r.y.as_int() == self.y.as_int(),
            r.z.as_int() == self.z.as_int(),
    {
        Vector3 {
            x: crate::scalar::convert_scalar(self.x),
            y: crate::scalar::convert_scalar(self.y),
            z: crate::scalar::convert_scalar(self.z),
        }
    }

    /// Attempts to convert the vector's components into another scalar type.
    /// On failure, this returns the error of the first component (in x, y, z,
    /// w order) whose value the target type cannot represent.
    pub fn try_convert<U: Scalar>(self) -> (r: Result<Vector3<U>, ConvertError>)
        ensures
            match r {
                Ok(v) => self.fits_in::<U>()
                    && v.x.as_int() == self.x.as_int()
                    && v.y.as_int() == self.y.as_int()
                    && v.z.as_int() == self.z.as_int(),
                Err(e) => !self.fits_in::<U>(),
            },
    {
        let x = match crate::scalar::try_convert_scalar::<T, U>(self.x) {
            Some(v) => v,
            None => {
                return Err(ConvertError);
            },
        };
        let y = match crate::scalar::try_convert_scalar::<T, U>(self.y) {
            Some(v) => v,
            None => {
                return Err(ConvertError);
            },
        };
        let z = match crate::scalar::try_convert_scalar::<T, U>(self.z) {
            Some(v) => v,
            None => {
                return Err(ConvertError);
            },
        };
        Ok(Vector3 { x, y, z })
    }

    /// Attempts to convert the vector's components into another scalar type,
    /// reading through a reference.
    pub fn try_ref_convert<U: Scalar>(&self) -> (r: Result<Vector3<U>, ConvertError>)
        ensures
            match r {
                Ok(v) => self.fits_in::<U>()
                    && v.x.as_int() == self.x.as_int()
                    && v.y.as_int() == self.y.as_int()
                    && v.z.as_int() == self.z.as_int(),
                Err(e) => !self.fits_in::<U>(),
            },
    {
        (*self).try_convert()
    }

    /// The sum of the components, folded left to right.
    pub fn sum(self) -> (r: T)
        requires
            fits::<T>(self.x.as_int() + self.y.as_int()),
            fits::<T>(self.x.as_int() + self.y.as_int() + self.z.as_int()),
        ensures
            r.as_int() == self.x.as_int() + self.y.as_int() + self.z.as_int(),
    {
        self.x.add(self.y).add(self.z)
    }

    /// The product of the components, folded left to right.
    pub fn product(self) -> (r: T)
        requires
            fits::<T>(self.x.as_int() * self.y.as_int()),
            fits::<T>(self.x.as_int() * self.y.as_int() * self.z.as_int()),
        ensures
            r.as_int() == self.x.as_int() * self.y.as_int() * self.z.as_int(),
    {
        self.x.mul(self.y).mul(self.z)
    }
}

/// Converting a vector into an array and the array back into a vector yields
/// the original vector: `a` holds the components of `v` exactly as
/// `into_array` produces them, and `w` is built from `a` exactly as
/// `from_array` builds it.
pub proof fn lemma_vector3_array_round_trip<T>(v: Vector3<T>, a: [T; 3], w: Vector3<T>)
    requires
        a@[0] == v.x,
        a@[1] == v.y,
        a@[2] == v.z,
        w.x == a@[0],
        w.y == a@[1],
        w.z == a@[2],
    ensures
        w == v,
{
}

/// Converting a vector into a tuple and the tuple back into a vector yields
/// the original vector.
pub proof fn lemma_vector3_tuple_round_trip<T>(v: Vector3<T>, t: (T, T, T), w: Vector3<T>)
    requires
        t.0 == v.x,
        t.1 == v.y,
        t.2 == v.z,
        w.x == t.0,
        w.y == t.1,
        w.z == t.2,
    ensures
        w == v,
{
}

/// 4-dimensional vector type.
#[derive(Clone, Copy, Debug, Eq, Hash, PartialEq, Structural)]
pub struct Vector4<T> {
    pub x: T,
    pub y: T,
    pub z: T,
    pub w: T,
}

/// Shorthand constructor for [`Vector4`].
pub fn vec4<T>(x: T, y: T, z: T, w: T) -> (r: Vector4<T>)
    ensures
        r == (Vector4 { x, y, z, w }),
{
    Vector4 { x, y, z, w }
}

impl<T> Vector4<T> {
    /// Constructs a vector from its scalar parts.
    pub fn new(x: T, y: T, z: T, w: T) -> (r: Vector4<T>)
        ensures
            r == (Vector4 { x, y, z, w }),
    {
        Vector4 { x, y, z, w }
    }

    /// Constructs a vector from an equal-length tuple.
    pub fn from_tuple(t: (T, T, T, T)) -> (r: Vector4<T>)
        ensures
            r.x == t.0,
            r.y == t.1,
            r.z == t.2,
            r.w == t.3,
    {
        let (x, y, z, w) = t;
        Vector4 { x, y, z, w }
    }

    /// Converts the vector into a tuple of its components.
    pub fn into_tuple(self) -> (r: (T, T, T, T))
        ensures
            r.0 == self.x,
            r.1 == self.y,
            r.2 == self.z,
            r.3 == self.w,
    {
        (self.x, self.y, self.z, self.w)
    }

    /// Converts the vector into an array of its components.
    pub fn into_array(self) -> (r: [T; 4])
        ensures
            r@[0] == self.x,
            r@[1] == self.y,
            r@[2] == self.z,
            r@[3] == self.w,
    {
        [self.x, self.y, self.z, self.w]
    }
}

impl<T: Copy> Vector4<T> {
    /// Constructs a vector from a same-length array.
    pub fn from_array(a: [T; 4]) -> (r: Vector4<T>)
        ensures
            r.x == a@[0],
            r.y == a@[1],
            r.z == a@[2],
            r.w == a@[3],
    {
        Vector4 { x: a[0], y: a[1], z: a[2], w: a[3] }
    }
}

impl<T: Scalar> Vector4<T> {
    /// Whether every component's value is representable in the scalar type `U`.
    pub open spec fn fits_in<U: Scalar>(self) -> bool {
        fits::<U>(self.x.as_int()) && fits::<U>(self.y.as_int()) && fits::<U>(self.z.as_int()) && fits::<U>(self.w.as_int())
    }

    /// Converts the vector's components into another scalar type that can
    /// represent each of their values.
    pub fn convert<U: Scalar>(self) -> (r: Vector4<U>)
        requires
            self.fits_in::<U>(),
        ensures
            r.x.as_int() == self.x.as_int(),
            r.y.as_int() == self.y.as_int(),
            r.z.as_int() == self.z.as_int(),
            r.w.as_int() == self.w.as_int(),
    {
        Vector4 {
            x: crate::scalar::convert_scalar(self.x),
            y: crate::scalar::convert_scalar(self.y),
            z: crate::scalar::convert_scalar(self.z),
            w: crate::scalar::convert_scalar(self.w),
        }
    }

    /// Converts the vector's components into another scalar type, reading
    /// through a reference.
    pub fn ref_convert<U: Scalar>(&self) -> (r: Vector4<U>)
        requires
            self.fits_in::<U>(),
        ensures
            r.x.as_int() == self.x.as_int(),
            r.y.as_int() == self.y.as_int(),
            r.z.as_int() == self.z.as_int(),
            r.w.as_int() == self.w.as_int(),
    {
        Vector4 {
            x: crate::scalar::convert_scalar(self.x),
            y: crate::scalar::convert_scalar(self.y),
            z: crate::scalar::convert_scalar(self.z),
            w: crate::scalar::convert_scalar(self.w),
        }
    }

    /// Attempts to convert the vector's components into another scalar type.
    /// On failure, this returns the error of the first component (in x, y, z,
    /// w order) whose value the target type cannot represent.
    pub fn try_convert<U: Scalar>(self) -> (r: Result<Vector4<U>, ConvertError>)
        ensures
            match r {
                Ok(v) => self.fits_in::<U>()
                    && v.x.as_int() == self.x.as_int()
                    && v.y.as_int() == self.y.as_int()
                    && v.z.as_int() == self.z.as_int()
                    && v.w.as_int() == self.w.as_int(),
                Err(e) => !self.fits_in::<U>(),
            },
    {
        let x = match crate::scalar::try_convert_scalar::<T, U>(self.x) {
            Some(v) => v,
            None => {
                return Err(ConvertError);
            },
        };
        let y = match crate::scalar::try_convert_scalar::<T, U>(self.y) {
            Some(v) => v,
            None => {
                return Err(ConvertError);
            },
        };
        let z = match crate::scalar::try_convert_scalar::<T, U>(self.z) {
            Some(v) => v,
            None => {
                return Err(ConvertError);
            },
        };
        let w = match crate::scalar::try_convert_scalar::<T, U>(self.w) {
            Some(v) => v,
            None => {
                return Err(ConvertError);
            },
        };
        Ok(Vector4 { x, y, z, w })
    }

    /// Attempts to convert the vector's components into another scalar type,
    /// reading through a reference.
    pub fn try_ref_convert<U: Scalar>(&self) -> (r: Result<Vector4<U>, ConvertError>)
        ensures
            match r {
                Ok(v) => self.fits_in::<U>()
                    && v.x.as_int() == self.x.as_int()
                    && v.y.as_int() == self.y.as_int()
                    && v.z.as_int() == self.z.as_int()
                    && v.w.as_int() == self.w.as_int(),
                Err(e) => !self.fits_in::<U>(),
            },
    {
        (*self).try_convert()
    }

    /// The sum of the components, folded left to right.
    pub fn sum(self) -> (r: T)
        requires
            fits::<T>(self.x.as_int() + self.y.as_int()),
            fits::<T>(self.x.as_int() + self.y.as_int() + self.z.as_int()),
            fits::<T>(self.x.as_int() + self.y.as_int() + self.z.as_int() + self.w.as_int()),
        ensures
            r.as_int() == self.x.as_int() + self.y.as_int() + self.z.as_int() + self.w.as_int(),
    {
        self.x.add(self.y).add(self.z).add(self.w)
    }

    /// The product of the components, folded left to right.
    pub fn product(self) -> (r: T)
        requires
            fits::<T>(self.x.as_int() * self.y.as_int()),
            fits::<T>(self.x.as_int() * self.y.as_int() * self.z.as_int()),
            fits::<T>(self.x.as_int() * self.y.as_int() * self.z.as_int() * self.w.as_int()),
        ensures
            r.as_int() == self.x.as_int() * self.y.as_int() * self.z.as_int() * self.w.as_int(),
    {
        self.x.mul(self.y).mul(self.z).mul(self.w)
    }
}

/// Converting a vector into an array and the array back into a vector yields
/// the original vector: `a` holds the components of `v` exactly as
/// `into_array` produces them, and `w` is built from `a` exactly as
/// `from_array` builds it.
pub proof fn lemma_vector4_array_round_trip<T>(v: Vector4<T>, a: [T; 4], w: Vector4<T>)
    requires
        a@[0] == v.x,
        a@[1] == v.y,
        a@[2] == v.z,
        a@[3] == v.w,
        w.x == a@[0],
        w.y == a@[1],
        w.z == a@[2],
        w.w == a@[3],
    ensures
        w == v,
{
}

/// Converting a vector into a tuple and the tuple back into a vector yields
/// the original vector.
pub proof fn lemma_vector4_tuple_round_trip<T>(v: Vector4<T>, t: (T, T, T, T), w: Vector4<T>)
    requires
        t.0 == v.x,
        t.1 == v.y,
        t.2 == v.z,
        t.3 == v.w,
        w.x == t.0,
        w.y == t.1,
        w.z == t.2,
        w.w == t.3,
    ensures
        w == v,
{
}

} // verus!
