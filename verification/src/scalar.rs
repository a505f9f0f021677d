//! The scalar layer: a trait describing the integer-like scalar types the
//! vector and rectangle types are generic over, together with the spec-level
//! arithmetic (clamping, wrapping, truncating division) that the scalar
//! operations are specified with.

use vstd::prelude::*;
use vstd::arithmetic::div_mod::{
    lemma_div_basics,
    lemma_div_nonincreasing,
    lemma_div_pos_is_pos,
    lemma_fundamental_div_mod,
    lemma_mod_add_multiples_vanish,
    lemma_mod_bound,
    lemma_mod_multiples_vanish,
    lemma_mod_sub_multiples_vanish,
    lemma_small_mod,
};

verus! {

/// `v` clamped into the inclusive range `[lo, hi]`: the value a saturating
/// operation produces.
pub open spec fn clamp_int(v: int, lo: int, hi: int) -> int {
    if v < lo {
        lo
    } else if v > hi {
        hi
    } else {
        v
    }
}

/// The unique value in `[lo, hi]` congruent to `v` modulo the width of the
/// range: the value a wrapping operation produces.
pub open spec fn wrap_int(v: int, lo: int, hi: int) -> int {
    lo + ((v - lo) % (hi - lo + 1))
}

/// Division truncating toward zero, which is how the scalar types divide.
/// (The spec-level `/` on `int` is Euclidean division; the two differ when
/// exactly one operand is negative.)
pub open spec fn trunc_div(a: int, b: int) -> int {
    if a == 0 {
        0
    } else if a > 0 && b > 0 {
        a / b
    } else if a < 0 && b < 0 {
        (a * -1) / (b * -1)
    } else if a < 0 {
        ((a * -1) / b) * -1
    } else {
        (a / (b * -1)) * -1
    }
}

/// The error produced by a checked arithmetic operation: each component
/// operation either overflows the scalar range or divides by zero, and the
/// first failing component (in x, y, z, w order) determines which error the
/// whole operation reports.
#[derive(Clone, Copy, Debug, PartialEq, Eq, Structural)]
pub enum ArithError {
    Overflow,
    DivideByZero,
}

/// The error produced by a fallible scalar-type conversion whenever a
/// component's value cannot be represented in the target scalar type; the
/// first failing component (in x, y, z, w order) is the one reported.
#[derive(Clone, Copy, Debug, PartialEq, Eq, Structural)]
pub struct ConvertError;

/// An integer-like scalar: a `Copy` type whose values are the integers of a
/// fixed non-empty range containing zero, with ordinary, checked, saturating
/// and wrapping arithmetic, all specified through the mathematical value
/// `as_int` of a scalar.
pub trait Scalar: Copy + Sized {
    /// The mathematical value of this scalar.
    spec fn as_int(self) -> int;

    /// The smallest value of the type.
    spec fn min_spec() -> int;

    /// The largest value of the type.
    spec fn max_spec() -> int;

    /// Every value of the type lies in `[min_spec(), max_spec()]`.
    proof fn lemma_in_range(self)
        ensures
            Self::min_spec() <= self.as_int() <= Self::max_spec(),
    ;

    /// The range is non-trivial and contains zero.
    proof fn lemma_range_shape()
        ensures
            Self::min_spec() <= 0 < Self::max_spec(),
    ;

    /// The additive identity.
    fn zero() -> (r: Self)
        ensures
            r.as_int() == 0,
    ;

    /// The smallest value of the type, as a value.
    fn min_val() -> (r: Self)
        ensures
            r.as_int() == Self::min_spec(),
    ;

    /// The largest value of the type, as a value.
    fn max_val() -> (r: Self)
        ensures
            r.as_int() == Self::max_spec(),
    ;

    /// Exact addition; the caller must show the sum representable.
    fn add(self, rhs: Self) -> (r: Self)
        requires
            Self::min_spec() <= self.as_int() + rhs.as_int() <= Self::max_spec(),
        ensures
            r.as_int() == self.as_int() + rhs.as_int(),
    ;

    /// Exact subtraction; the caller must show the difference representable.
    fn sub(self, rhs: Self) -> (r: Self)
        requires
            Self::min_spec() <= self.as_int() - rhs.as_int() <= Self::max_spec(),
        ensures
            r.as_int() == self.as_int() - rhs.as_int(),
    ;

    /// Exact multiplication; the caller must show the product representable.
    fn mul(self, rhs: Self) -> (r: Self)
        requires
            Self::min_spec() <= self.as_int() * rhs.as_int() <= Self::max_spec(),
        ensures
            r.as_int() == self.as_int() * rhs.as_int(),
    ;

    /// Division truncating toward zero; the divisor must be non-zero and the
    /// quotient representable.
    fn div(self, rhs: Self) -> (r: Self)
        requires
            rhs.as_int() != 0,
            Self::min_spec() <= trunc_div(self.as_int(), rhs.as_int()) <= Self::max_spec(),
        ensures
            r.as_int() == trunc_div(self.as_int(), rhs.as_int()),
    ;

    /// Exact negation; the caller must show the negated value representable.
    fn neg(self) -> (r: Self)
        requires
            Self::min_spec() <= -self.as_int() <= Self::max_spec(),
        ensures
            r.as_int() == -self.as_int(),
    ;

    /// Strict order on the mathematical values.
    fn lt(self, rhs: Self) -> (r: bool)
        ensures
            r == (self.as_int() < rhs.as_int()),
    ;

    /// Non-strict order on the mathematical values.
    fn le(self, rhs: Self) -> (r: bool)
        ensures
            r == (self.as_int() <= rhs.as_int()),
    ;

    /// Whether this is the additive identity.
    fn is_zero(self) -> (r: bool)
        ensures
            r == (self.as_int() == 0),
    {
        self.le(Self::zero()) && Self::zero().le(self)
    }

    /// Addition that reports an unrepresentable sum instead of failing.
    fn checked_add(self, rhs: Self) -> (r: Option<Self>)
        ensures
            match r {
                Some(v) => Self::min_spec() <= self.as_int() + rhs.as_int() <= Self::max_spec()
                    && v.as_int() == self.as_int() + rhs.as_int(),
                None => !(Self::min_spec() <= self.as_int() + rhs.as_int() <= Self::max_spec()),
            },
    ;

    /// Subtraction that reports an unrepresentable difference.
    fn checked_sub(self, rhs: Self) -> (r: Option<Self>)
        ensures
            match r {
                Some(v) => Self::min_spec() <= self.as_int() - rhs.as_int() <= Self::max_spec()
                    && v.as_int() == self.as_int() - rhs.as_int(),
                None => !(Self::min_spec() <= self.as_int() - rhs.as_int() <= Self::max_spec()),
            },
    ;

    /// Multiplication that reports an unrepresentable product.
    fn checked_mul(self, rhs: Self) -> (r: Option<Self>)
        ensures
            match r {
                Some(v) => Self::min_spec() <= self.as_int() * rhs.as_int() <= Self::max_spec()
                    && v.as_int() == self.as_int() * rhs.as_int(),
                None => !(Self::min_spec() <= self.as_int() * rhs.as_int() <= Self::max_spec()),
            },
    ;

    /// Division that reports a zero divisor or an unrepresentable quotient.
    fn checked_div(self, rhs: Self) -> (r: Option<Self>)
        ensures
            match r {
                Some(v) => rhs.as_int() != 0
                    && Self::min_spec() <= trunc_div(self.as_int(), rhs.as_int())
                        <= Self::max_spec()
                    && v.as_int() == trunc_div(self.as_int(), rhs.as_int()),
                None => rhs.as_int() == 0
                    || !(Self::min_spec() <= trunc_div(self.as_int(), rhs.as_int())
                        <= Self::max_spec()),
            },
    ;

    /// Negation that reports an unrepresentable result.
    fn checked_neg(self) -> (r: Option<Self>)
        ensures
            match r {
                Some(v) => Self::min_spec() <= -self.as_int() <= Self::max_spec()
                    && v.as_int() == -self.as_int(),
                None => !(Self::min_spec() <= -self.as_int() <= Self::max_spec()),
            },
    ;

    /// Addition clamped into the scalar range.
    fn saturating_add(self, rhs: Self) -> (r: Self)
        ensures
            r.as_int() == clamp_int(
                self.as_int() + rhs.as_int(),
                Self::min_spec(),
                Self::max_spec(),
            ),
    {
        match self.checked_add(rhs) {
            Some(v) => v,
            None => {
                proof {
                    self.lemma_in_range();
                    rhs.lemma_in_range();
                    Self::lemma_range_shape();
                }
                if Self::zero().lt(rhs) {
                    Self::max_val()
                } else {
                    Self::min_val()
                }
            },
        }
    }

    /// Subtraction clamped into the scalar range.
    fn saturating_sub(self, rhs: Self) -> (r: Self)
        ensures
            r.as_int() == clamp_int(
                self.as_int() - rhs.as_int(),
                Self::min_spec(),
                Self::max_spec(),
            ),
    {
        match self.checked_sub(rhs) {
            Some(v) => v,
            None => {
                proof {
                    self.lemma_in_range();
                    rhs.lemma_in_range();
                    Self::lemma_range_shape();
                }
                if Self::zero().lt(rhs) {
                    Self::min_val()
                } else {
                    Self::max_val()
                }
            },
        }
    }

    /// Multiplication clamped into the scalar range.
    fn saturating_mul(self, rhs: Self) -> (r: Self)
        ensures
            r.as_int() == clamp_int(
                self.as_int() * rhs.as_int(),
                Self::min_spec(),
                Self::max_spec(),
            ),
    {
        match self.checked_mul(rhs) {
            Some(v) => v,
            None => {
                proof {
                    self.lemma_in_range();
                    rhs.lemma_in_range();
                    Self::lemma_range_shape();
                    lemma_mul_sign(self.as_int(), rhs.as_int());
                }
                let z = Self::zero();
                if (z.lt(self) && z.lt(rhs)) || (self.lt(z) && rhs.lt(z)) {
                    Self::max_val()
                } else {
                    Self::min_val()
                }
            },
        }
    }

    /// Negation clamped into the scalar range.
    fn saturating_neg(self) -> (r: Self)
        ensures
            r.as_int() == clamp_int(-self.as_int(), Self::min_spec(), Self::max_spec()),
    {
        match self.checked_neg() {
            Some(v) => v,
            None => {
                proof {
                    self.lemma_in_range();
                    Self::lemma_range_shape();
                }
                if Self::zero().lt(self) {
                    Self::min_val()
                } else {
                    Self::max_val()
                }
            },
        }
    }

    /// Addition wrapping around the scalar range.
    fn wrapping_add(self, rhs: Self) -> (r: Self)
        ensures
            r.as_int() == wrap_int(
                self.as_int() + rhs.as_int(),
                Self::min_spec(),
                Self::max_spec(),
            ),
    ;

    /// Subtraction wrapping around the scalar range.
    fn wrapping_sub(self, rhs: Self) -> (r: Self)
        ensures
            r.as_int() == wrap_int(
                self.as_int() - rhs.as_int(),
                Self::min_spec(),
                Self::max_spec(),
            ),
    ;

    /// Multiplication wrapping around the scalar range.
    fn wrapping_mul(self, rhs: Self) -> (r: Self)
        ensures
            r.as_int() == wrap_int(
                self.as_int() * rhs.as_int(),
                Self::min_spec(),
                Self::max_spec(),
            ),
    ;

    /// Negation wrapping around the scalar range.
    fn wrapping_neg(self) -> (r: Self)
        ensures
            r.as_int() == wrap_int(-self.as_int(), Self::min_spec(), Self::max_spec()),
    {
        Self::zero().wrapping_sub(self)
    }

    /// The value widened into `i128`, which every scalar type fits in.
    fn to_wide(self) -> (r: i128)
        ensures
            r as int == self.as_int(),
    ;

    /// The scalar of a widened value, when the value is representable.
    fn checked_from_wide(v: i128) -> (r: Option<Self>)
        ensures
            match r {
                Some(s) => Self::min_spec() <= v as int <= Self::max_spec()
                    && s.as_int() == v as int,
                None => !(Self::min_spec() <= v as int <= Self::max_spec()),
            },
    ;
}

/// Whether the mathematical value `v` is representable in the scalar type `U`.
pub open spec fn fits<U: Scalar>(v: int) -> bool {
    U::min_spec() <= v <= U::max_spec()
}

/// The outcome of one component's checked addition.
pub open spec fn add_err<T: Scalar>(a: T, b: T) -> Option<ArithError> {
    if fits::<T>(a.as_int() + b.as_int()) {
        None
    } else {
        Some(ArithError::Overflow)
    }
}

/// The outcome of one component's checked subtraction.
pub open spec fn sub_err<T: Scalar>(a: T, b: T) -> Option<ArithError> {
    if fits::<T>(a.as_int() - b.as_int()) {
        None
    } else {
        Some(ArithError::Overflow)
    }
}

/// The outcome of one component's checked multiplication.
pub open spec fn mul_err<T: Scalar>(a: T, b: T) -> Option<ArithError> {
    if fits::<T>(a.as_int() * b.as_int()) {
        None
    } else {
        Some(ArithError::Overflow)
    }
}

/// The outcome of one component's checked division: a zero divisor is
/// reported as such, an unrepresentable quotient as an overflow.
pub open spec fn div_err<T: Scalar>(a: T, b: T) -> Option<ArithError> {
    if b.as_int() == 0 {
        Some(ArithError::DivideByZero)
    } else if fits::<T>(trunc_div(a.as_int(), b.as_int())) {
        None
    } else {
        Some(ArithError::Overflow)
    }
}

/// The outcome of one component's checked negation.
pub open spec fn neg_err<T: Scalar>(a: T) -> Option<ArithError> {
    if fits::<T>(-a.as_int()) {
        None
    } else {
        Some(ArithError::Overflow)
    }
}

/// The first of two component outcomes, in component evaluation order.
pub open spec fn first_err(a: Option<ArithError>, b: Option<ArithError>) -> Option<ArithError> {
    if a is Some {
        a
    } else {
        b
    }
}

/// Converts a scalar into another scalar type that can represent its value.
pub fn convert_scalar<T: Scalar, U: Scalar>(v: T) -> (r: U)
    requires
        fits::<U>(v.as_int()),
    ensures
        r.as_int() == v.as_int(),
{
    match U::checked_from_wide(v.to_wide()) {
        Some(u) => u,
        None => unreached(),
    }
}

/// Converts a scalar into another scalar type, reporting a value the target
/// type cannot represent.
pub fn try_convert_scalar<T: Scalar, U: Scalar>(v: T) -> (r: Option<U>)
    ensures
        match r {
            Some(u) => fits::<U>(v.as_int()) && u.as_int() == v.as_int(),
            None => !fits::<U>(v.as_int()),
        },
{
    U::checked_from_wide(v.to_wide())
}

/// The sign of a product follows the signs of its factors.
proof fn lemma_mul_sign(a: int, b: int)
    ensures
        a > 0 && b > 0 ==> a * b > 0,
        a < 0 && b < 0 ==> a * b > 0,
        a > 0 && b < 0 ==> a * b < 0,
        a < 0 && b > 0 ==> a * b < 0,
        a == 0 || b == 0 ==> a * b == 0,
{
    assert(a > 0 && b > 0 ==> a * b > 0) by (nonlinear_arith);
    assert(a < 0 && b < 0 ==> a * b > 0) by (nonlinear_arith);
    assert(a > 0 && b < 0 ==> a * b < 0) by (nonlinear_arith);
    assert(a < 0 && b > 0 ==> a * b < 0) by (nonlinear_arith);
}

/// For a value within one range-width of `[lo, hi]`, wrapping is a single
/// shift by the width (or no shift at all).
proof fn lemma_wrap_int_cases(v: int, lo: int, hi: int)
    requires
        lo <= 0 <= hi,
        lo - (hi - lo + 1) <= v <= hi + (hi - lo + 1),
    ensures
        wrap_int(v, lo, hi) == if v < lo {
            v + (hi - lo + 1)
        } else if v > hi {
            v - (hi - lo + 1)
        } else {
            v
        },
{
    let r = hi - lo + 1;
    if v < lo {
        lemma_mod_add_multiples_vanish(v - lo, r);
        lemma_small_mod((v - lo + r) as nat, r as nat);
    } else if v > hi {
        lemma_mod_sub_multiples_vanish(v - lo, r);
        lemma_small_mod((v - lo - r) as nat, r as nat);
    } else {
        lemma_small_mod((v - lo) as nat, r as nat);
    }
}

/// Wrapping into `[lo, hi]` expressed through the remainder of the value
/// modulo the range width.
proof fn lemma_wrap_int_mod(v: int, lo: int, hi: int)
    requires
        lo <= 0 <= hi,
    ensures
        wrap_int(v, lo, hi) == if v % (hi - lo + 1) > hi {
            v % (hi - lo + 1) - (hi - lo + 1)
        } else {
            v % (hi - lo + 1)
        },
{
    let r = hi - lo + 1;
    let m = v % r;
    lemma_mod_bound(v, r);
    lemma_fundamental_div_mod(v, r);
    assert(v - lo == r * (v / r) + (m - lo));
    lemma_mod_multiples_vanish(v / r, m - lo, r);
    if m > hi {
        lemma_mod_sub_multiples_vanish(m - lo, r);
        lemma_small_mod((m - lo - r) as nat, r as nat);
    } else {
        lemma_small_mod((m - lo) as nat, r as nat);
    }
}

/// Saturating and wrapping arithmetic agree with the exact result whenever
/// the exact result is representable in the scalar range.
pub proof fn lemma_saturating_wrapping_in_range(v: int, lo: int, hi: int)
    requires
        lo <= 0 <= hi,
        lo <= v <= hi,
    ensures
        clamp_int(v, lo, hi) == v,
        wrap_int(v, lo, hi) == v,
{
    lemma_wrap_int_cases(v, lo, hi);
}

impl Scalar for i32 {
    open spec fn as_int(self) -> int {
        self as int
    }

    open spec fn min_spec() -> int {
        i32::MIN as int
    }

    open spec fn max_spec() -> int {
        i32::MAX as int
    }

    proof fn lemma_in_range(self) {
    }

    proof fn lemma_range_shape() {
    }

    fn zero() -> Self {
        0
    }

    fn min_val() -> Self {
        i32::MIN
    }

    fn max_val() -> Self {
        i32::MAX
    }

    fn add(self, rhs: Self) -> Self {
        self + rhs
    }

    fn sub(self, rhs: Self) -> Self {
        self - rhs
    }

    fn mul(self, rhs: Self) -> Self {
        self * rhs
    }

    fn div(self, rhs: Self) -> Self {
        match i32::checked_div(self, rhs) {
            Some(v) => v,
            None => unreached(),
        }
    }

    fn neg(self) -> Self {
        -self
    }

    fn lt(self, rhs: Self) -> bool {
        self < rhs
    }

    fn le(self, rhs: Self) -> bool {
        self <= rhs
    }

    fn checked_add(self, rhs: Self) -> Option<Self> {
        i32::checked_add(self, rhs)
    }

    fn checked_sub(self, rhs: Self) -> Option<Self> {
        i32::checked_sub(self, rhs)
    }

    fn checked_mul(self, rhs: Self) -> Option<Self> {
        i32::checked_mul(self, rhs)
    }

    fn checked_div(self, rhs: Self) -> Option<Self> {
        i32::checked_div(self, rhs)
    }

    fn checked_neg(self) -> Option<Self> {
        if self == i32::MIN {
            None
        } else {
            Some(-self)
        }
    }

    fn wrapping_add(self, rhs: Self) -> Self {
        proof {
            lemma_wrap_int_cases(self as int + rhs as int, i32::MIN as int, i32::MAX as int);
        }
        i32::wrapping_add(self, rhs)
    }

    fn wrapping_sub(self, rhs: Self) -> Self {
        proof {
            lemma_wrap_int_cases(self as int - rhs as int, i32::MIN as int, i32::MAX as int);
        }
        i32::wrapping_sub(self, rhs)
    }

    fn wrapping_mul(self, rhs: Self) -> Self {
        proof {
            lemma_wrap_int_mod(self as int * rhs as int, i32::MIN as int, i32::MAX as int);
        }
        i32::wrapping_mul(self, rhs)
    }

    fn to_wide(self) -> i128 {
        self as i128
    }

    fn checked_from_wide(v: i128) -> Option<Self> {
        if i32::MIN as i128 <= v && v <= i32::MAX as i128 {
            Some(v as i32)
        } else {
            None
        }
    }
}


impl Scalar for i8 {
    open spec fn as_int(self) -> int {
        self as int
    }

    open spec fn min_spec() -> int {
        i8::MIN as int
    }

    open spec fn max_spec() -> int {
        i8::MAX as int
    }

    proof fn lemma_in_range(self) {
    }

    proof fn lemma_range_shape() {
    }

    fn zero() -> Self {
        0
    }

    fn min_val() -> Self {
        i8::MIN
    }

    fn max_val() -> Self {
        i8::MAX
    }

    fn add(self, rhs: Self) -> Self {
        self + rhs
    }

    fn sub(self, rhs: Self) -> Self {
        self - rhs
    }

    fn mul(self, rhs: Self) -> Self {
        self * rhs
    }

    fn div(self, rhs: Self) -> Self {
        match i8::checked_div(self, rhs) {
            Some(v) => v,
            None => unreached(),
        }
    }

    fn neg(self) -> Self {
        -self
    }

    fn lt(self, rhs: Self) -> bool {
        self < rhs
    }

    fn le(self, rhs: Self) -> bool {
        self <= rhs
    }

    fn checked_add(self, rhs: Self) -> Option<Self> {
        i8::checked_add(self, rhs)
    }

    fn checked_sub(self, rhs: Self) -> Option<Self> {
        i8::checked_sub(self, rhs)
    }

    fn checked_mul(self, rhs: Self) -> Option<Self> {
        i8::checked_mul(self, rhs)
    }

    fn checked_div(self, rhs: Self) -> Option<Self> {
        i8::checked_div(self, rhs)
    }

    fn checked_neg(self) -> Option<Self> {
        if self == i8::MIN {
            None
        } else {
            Some(-self)
        }
    }

    fn wrapping_add(self, rhs: Self) -> Self {
        proof {
            lemma_wrap_int_cases(self as int + rhs as int, i8::MIN as int, i8::MAX as int);
        }
        i8::wrapping_add(self, rhs)
    }

    fn wrapping_sub(self, rhs: Self) -> Self {
        proof {
            lemma_wrap_int_cases(self as int - rhs as int, i8::MIN as int, i8::MAX as int);
        }
        i8::wrapping_sub(self, rhs)
    }

    fn wrapping_mul(self, rhs: Self) -> Self {
        proof {
            lemma_wrap_int_mod(self as int * rhs as int, i8::MIN as int, i8::MAX as int);
        }
        i8::wrapping_mul(self, rhs)
    }

    fn to_wide(self) -> i128 {
        self as i128
    }

    fn checked_from_wide(v: i128) -> Option<Self> {
        if i8::MIN as i128 <= v && v <= i8::MAX as i128 {
            Some(v as i8)
        } else {
            None
        }
    }
}

impl Scalar for i16 {
    open spec fn as_int(self) -> int {
        self as int
    }

    open spec fn min_spec() -> int {
        i16::MIN as int
    }

    open spec fn max_spec() -> int {
        i16::MAX as int
    }

    proof fn lemma_in_range(self) {
    }

    proof fn lemma_range_shape() {
    }

    fn zero() -> Self {
        0
    }

    fn min_val() -> Self {
        i16::MIN
    }

    fn max_val() -> Self {
        i16::MAX
    }

    fn add(self, rhs: Self) -> Self {
        self + rhs
    }

    fn sub(self, rhs: Self) -> Self {
        self - rhs
    }

    fn mul(self, rhs: Self) -> Self {
        self * rhs
    }

    fn div(self, rhs: Self) -> Self {
        match i16::checked_div(self, rhs) {
            Some(v) => v,
            None => unreached(),
        }
    }

    fn neg(self) -> Self {
        -self
    }

    fn lt(self, rhs: Self) -> bool {
        self < rhs
    }

    fn le(self, rhs: Self) -> bool {
        self <= rhs
    }

    fn checked_add(self, rhs: Self) -> Option<Self> {
        i16::checked_add(self, rhs)
    }

    fn checked_sub(self, rhs: Self) -> Option<Self> {
        i16::checked_sub(self, rhs)
    }

    fn checked_mul(self, rhs: Self) -> Option<Self> {
        i16::checked_mul(self, rhs)
    }

    fn checked_div(self, rhs: Self) -> Option<Self> {
        i16::checked_div(self, rhs)
    }

    fn checked_neg(self) -> Option<Self> {
        if self == i16::MIN {
            None
        } else {
            Some(-self)
        }
    }

    fn wrapping_add(self, rhs: Self) -> Self {
        proof {
            lemma_wrap_int_cases(self as int + rhs as int, i16::MIN as int, i16::MAX as int);
        }
        i16::wrapping_add(self, rhs)
    }

    fn wrapping_sub(self, rhs: Self) -> Self {
        proof {
            lemma_wrap_int_cases(self as int - rhs as int, i16::MIN as int, i16::MAX as int);
        }
        i16::wrapping_sub(self, rhs)
    }

    fn wrapping_mul(self, rhs: Self) -> Self {
        proof {
            lemma_wrap_int_mod(self as int * rhs as int, i16::MIN as int, i16::MAX as int);
        }
        i16::wrapping_mul(self, rhs)
    }

    fn to_wide(self) -> i128 {
        self as i128
    }

    fn checked_from_wide(v: i128) -> Option<Self> {
        if i16::MIN as i128 <= v && v <= i16::MAX as i128 {
            Some(v as i16)
        } else {
            None
        }
    }
}

impl Scalar for i64 {
    open spec fn as_int(self) -> int {
        self as int
    }

    open spec fn min_spec() -> int {
        i64::MIN as int
    }

    open spec fn max_spec() -> int {
        i64::MAX as int
    }

    proof fn lemma_in_range(self) {
    }

    proof fn lemma_range_shape() {
    }

    fn zero() -> Self {
        0
    }

    fn min_val() -> Self {
        i64::MIN
    }

    fn max_val() -> Self {
        i64::MAX
    }

    fn add(self, rhs: Self) -> Self {
        self + rhs
    }

    fn sub(self, rhs: Self) -> Self {
        self - rhs
    }

    fn mul(self, rhs: Self) -> Self {
        self * rhs
    }

    fn div(self, rhs: Self) -> Self {
        match i64::checked_div(self, rhs) {
            Some(v) => v,
            None => unreached(),
        }
    }

    fn neg(self) -> Self {
        -self
    }

    fn lt(self, rhs: Self) -> bool {
        self < rhs
    }

    fn le(self, rhs: Self) -> bool {
        self <= rhs
    }

    fn checked_add(self, rhs: Self) -> Option<Self> {
        i64::checked_add(self, rhs)
    }

    fn checked_sub(self, rhs: Self) -> Option<Self> {
        i64::checked_sub(self, rhs)
    }

    fn checked_mul(self, rhs: Self) -> Option<Self> {
        i64::checked_mul(self, rhs)
    }

    fn checked_div(self, rhs: Self) -> Option<Self> {
        i64::checked_div(self, rhs)
    }

    fn checked_neg(self) -> Option<Self> {
        if self == i64::MIN {
            None
        } else {
            Some(-self)
        }
    }

    fn wrapping_add(self, rhs: Self) -> Self {
        proof {
            lemma_wrap_int_cases(self as int + rhs as int, i64::MIN as int, i64::MAX as int);
        }
        i64::wrapping_add(self, rhs)
    }

    fn wrapping_sub(self, rhs: Self) -> Self {
        proof {
            lemma_wrap_int_cases(self as int - rhs as int, i64::MIN as int, i64::MAX as int);
        }
        i64::wrapping_sub(self, rhs)
    }

    fn wrapping_mul(self, rhs: Self) -> Self {
        proof {
            lemma_wrap_int_mod(self as int * rhs as int, i64::MIN as int, i64::MAX as int);
        }
        i64::wrapping_mul(self, rhs)
    }

    fn to_wide(self) -> i128 {
        self as i128
    }

    fn checked_from_wide(v: i128) -> Option<Self> {
        if i64::MIN as i128 <= v && v <= i64::MAX as i128 {
            Some(v as i64)
        } else {
            None
        }
    }
}

impl Scalar for u8 {
    open spec fn as_int(self) -> int {
        self as int
    }

    open spec fn min_spec() -> int {
        u8::MIN as int
    }

    open spec fn max_spec() -> int {
        u8::MAX as int
    }

    proof fn lemma_in_range(self) {
    }

    proof fn lemma_range_shape() {
    }

    fn zero() -> Self {
        0
    }

    fn min_val() -> Self {
        u8::MIN
    }

    fn max_val() -> Self {
        u8::MAX
    }

    fn add(self, rhs: Self) -> Self {
        self + rhs
    }

    fn sub(self, rhs: Self) -> Self {
        self - rhs
    }

    fn mul(self, rhs: Self) -> Self {
        self * rhs
    }

    fn div(self, rhs: Self) -> Self {
        proof {
            lemma_div_basics(rhs as int);
        }
        self / rhs
    }

    fn neg(self) -> Self {
        0
    }

    fn lt(self, rhs: Self) -> bool {
        self < rhs
    }

    fn le(self, rhs: Self) -> bool {
        self <= rhs
    }

    fn checked_add(self, rhs: Self) -> Option<Self> {
        u8::checked_add(self, rhs)
    }

    fn checked_sub(self, rhs: Self) -> Option<Self> {
        u8::checked_sub(self, rhs)
    }

    fn checked_mul(self, rhs: Self) -> Option<Self> {
        u8::checked_mul(self, rhs)
    }

    fn checked_div(self, rhs: Self) -> Option<Self> {
        proof {
            if rhs != 0 {
                lemma_div_basics(rhs as int);
                lemma_div_pos_is_pos(self as int, rhs as int);
                lemma_div_nonincreasing(self as int, rhs as int);
            }
        }
        u8::checked_div(self, rhs)
    }

    fn checked_neg(self) -> Option<Self> {
        if self == 0 {
            Some(self)
        } else {
            None
        }
    }

    fn wrapping_add(self, rhs: Self) -> Self {
        proof {
            lemma_wrap_int_cases(self as int + rhs as int, u8::MIN as int, u8::MAX as int);
        }
        u8::wrapping_add(self, rhs)
    }

    fn wrapping_sub(self, rhs: Self) -> Self {
        proof {
            lemma_wrap_int_cases(self as int - rhs as int, u8::MIN as int, u8::MAX as int);
        }
        u8::wrapping_sub(self, rhs)
    }

    fn wrapping_mul(self, rhs: Self) -> Self {
        proof {
            lemma_wrap_int_mod(self as int * rhs as int, u8::MIN as int, u8::MAX as int);
            lemma_mod_bound(self as int * rhs as int, u8::MAX as int - u8::MIN as int + 1);
        }
        u8::wrapping_mul(self, rhs)
    }

    fn to_wide(self) -> i128 {
        self as i128
    }

    fn checked_from_wide(v: i128) -> Option<Self> {
        if u8::MIN as i128 <= v && v <= u8::MAX as i128 {
            Some(v as u8)
        } else {
            None
        }
    }
}

impl Scalar for u16 {
    open spec fn as_int(self) -> int {
        self as int
    }

    open spec fn min_spec() -> int {
        u16::MIN as int
    }

    open spec fn max_spec() -> int {
        u16::MAX as int
    }

    proof fn lemma_in_range(self) {
    }

    proof fn lemma_range_shape() {
    }

    fn zero() -> Self {
        0
    }

    fn min_val() -> Self {
        u16::MIN
    }

    fn max_val() -> Self {
        u16::MAX
    }

    fn add(self, rhs: Self) -> Self {
        self + rhs
    }

    fn sub(self, rhs: Self) -> Self {
        self - rhs
    }

    fn mul(self, rhs: Self) -> Self {
        self * rhs
    }

    fn div(self, rhs: Self) -> Self {
        proof {
            lemma_div_basics(rhs as int);
        }
        self / rhs
    }

    fn neg(self) -> Self {
        0
    }

    fn lt(self, rhs: Self) -> bool {
        self < rhs
    }

    fn le(self, rhs: Self) -> bool {
        self <= rhs
    }

    fn checked_add(self, rhs: Self) -> Option<Self> {
        u16::checked_add(self, rhs)
    }

    fn checked_sub(self, rhs: Self) -> Option<Self> {
        u16::checked_sub(self, rhs)
    }

    fn checked_mul(self, rhs: Self) -> Option<Self> {
        u16::checked_mul(self, rhs)
    }

    fn checked_div(self, rhs: Self) -> Option<Self> {
        proof {
            if rhs != 0 {
                lemma_div_basics(rhs as int);
                lemma_div_pos_is_pos(self as int, rhs as int);
                lemma_div_nonincreasing(self as int, rhs as int);
            }
        }
        u16::checked_div(self, rhs)
    }

    fn checked_neg(self) -> Option<Self> {
        if self == 0 {
            Some(self)
        } else {
            None
        }
    }

    fn wrapping_add(self, rhs: Self) -> Self {
        proof {
            lemma_wrap_int_cases(self as int + rhs as int, u16::MIN as int, u16::MAX as int);
        }
        u16::wrapping_add(self, rhs)
    }

    fn wrapping_sub(self, rhs: Self) -> Self {
        proof {
            lemma_wrap_int_cases(self as int - rhs as int, u16::MIN as int, u16::MAX as int);
        }
        u16::wrapping_sub(self, rhs)
    }

    fn wrapping_mul(self, rhs: Self) -> Self {
        proof {
            lemma_wrap_int_mod(self as int * rhs as int, u16::MIN as int, u16::MAX as int);
            lemma_mod_bound(self as int * rhs as int, u16::MAX as int - u16::MIN as int + 1);
        }
        u16::wrapping_mul(self, rhs)
    }

    fn to_wide(self) -> i128 {
        self as i128
    }

    fn checked_from_wide(v: i128) -> Option<Self> {
        if u16::MIN as i128 <= v && v <= u16::MAX as i128 {
            Some(v as u16)
        } else {
            None
        }
    }
}

impl Scalar for u32 {
    open spec fn as_int(self) -> int {
        self as int
    }

    open spec fn min_spec() -> int {
        u32::MIN as int
    }

    open spec fn max_spec() -> int {
        u32::MAX as int
    }

    proof fn lemma_in_range(self) {
    }

    proof fn lemma_range_shape() {
    }

    fn zero() -> Self {
        0
    }

    fn min_val() -> Self {
        u32::MIN
    }

    fn max_val() -> Self {
        u32::MAX
    }

    fn add(self, rhs: Self) -> Self {
        self + rhs
    }

    fn sub(self, rhs: Self) -> Self {
        self - rhs
    }

    fn mul(self, rhs: Self) -> Self {
        self * rhs
    }

    fn div(self, rhs: Self) -> Self {
        proof {
            lemma_div_basics(rhs as int);
        }
        self / rhs
    }

    fn neg(self) -> Self {
        0
    }

    fn lt(self, rhs: Self) -> bool {
        self < rhs
    }

    fn le(self, rhs: Self) -> bool {
        self <= rhs
    }

    fn checked_add(self, rhs: Self) -> Option<Self> {
        u32::checked_add(self, rhs)
    }

    fn checked_sub(self, rhs: Self) -> Option<Self> {
        u32::checked_sub(self, rhs)
    }

    fn checked_mul(self, rhs: Self) -> Option<Self> {
        u32::checked_mul(self, rhs)
    }

    fn checked_div(self, rhs: Self) -> Option<Self> {
        proof {
            if rhs != 0 {
                lemma_div_basics(rhs as int);
                lemma_div_pos_is_pos(self as int, rhs as int);
                lemma_div_nonincreasing(self as int, rhs as int);
            }
        }
        u32::checked_div(self, rhs)
    }

    fn checked_neg(self) -> Option<Self> {
        if self == 0 {
            Some(self)
        } else {
            None
        }
    }

    fn wrapping_add(self, rhs: Self) -> Self {
        proof {
            lemma_wrap_int_cases(self as int + rhs as int, u32::MIN as int, u32::MAX as int);
        }
        u32::wrapping_add(self, rhs)
    }

    fn wrapping_sub(self, rhs: Self) -> Self {
        proof {
            lemma_wrap_int_cases(self as int - rhs as int, u32::MIN as int, u32::MAX as int);
        }
        u32::wrapping_sub(self, rhs)
    }

    fn wrapping_mul(self, rhs: Self) -> Self {
        proof {
            lemma_wrap_int_mod(self as int * rhs as int, u32::MIN as int, u32::MAX as int);
            lemma_mod_bound(self as int * rhs as int, u32::MAX as int - u32::MIN as int + 1);
        }
        u32::wrapping_mul(self, rhs)
    }

    fn to_wide(self) -> i128 {
        self as i128
    }

    fn checked_from_wide(v: i128) -> Option<Self> {
        if u32::MIN as i128 <= v && v <= u32::MAX as i128 {
            Some(v as u32)
        } else {
            None
        }
    }
}

impl Scalar for u64 {
    open spec fn as_int(self) -> int {
        self as int
    }

    open spec fn min_spec() -> int {
        u64::MIN as int
    }

    open spec fn max_spec() -> int {
        u64::MAX as int
    }

    proof fn lemma_in_range(self) {
    }

    proof fn lemma_range_shape() {
    }

    fn zero() -> Self {
        0
    }

    fn min_val() -> Self {
        u64::MIN
    }

    fn max_val() -> Self {
        u64::MAX
    }

    fn add(self, rhs: Self) -> Self {
        self + rhs
    }

    fn sub(self, rhs: Self) -> Self {
        self - rhs
    }

    fn mul(self, rhs: Self) -> Self {
        self * rhs
    }

    fn div(self, rhs: Self) -> Self {
        proof {
            lemma_div_basics(rhs as int);
        }
        self / rhs
    }

    fn neg(self) -> Self {
        0
    }

    fn lt(self, rhs: Self) -> bool {
        self < rhs
    }

    fn le(self, rhs: Self) -> bool {
        self <= rhs
    }

    fn checked_add(self, rhs: Self) -> Option<Self> {
        u64::checked_add(self, rhs)
    }

    fn checked_sub(self, rhs: Self) -> Option<Self> {
        u64::checked_sub(self, rhs)
    }

    fn checked_mul(self, rhs: Self) -> Option<Self> {
        u64::checked_mul(self, rhs)
    }

    fn checked_div(self, rhs: Self) -> Option<Self> {
        proof {
            if rhs != 0 {
                lemma_div_basics(rhs as int);
                lemma_div_pos_is_pos(self as int, rhs as int);
                lemma_div_nonincreasing(self as int, rhs as int);
            }
        }
        u64::checked_div(self, rhs)
    }

    fn checked_neg(self) -> Option<Self> {
        if self == 0 {
            Some(self)
        } else {
            None
        }
    }

    fn wrapping_add(self, rhs: Self) -> Self {
        proof {
            lemma_wrap_int_cases(self as int + rhs as int, u64::MIN as int, u64::MAX as int);
        }
        u64::wrapping_add(self, rhs)
    }

    fn wrapping_sub(self, rhs: Self) -> Self {
        proof {
            lemma_wrap_int_cases(self as int - rhs as int, u64::MIN as int, u64::MAX as int);
        }
        u64::wrapping_sub(self, rhs)
    }

    fn wrapping_mul(self, rhs: Self) -> Self {
        proof {
            lemma_wrap_int_mod(self as int * rhs as int, u64::MIN as int, u64::MAX as int);
            lemma_mod_bound(self as int * rhs as int, u64::MAX as int - u64::MIN as int + 1);
        }
        u64::wrapping_mul(self, rhs)
    }

    fn to_wide(self) -> i128 {
        self as i128
    }

    fn checked_from_wide(v: i128) -> Option<Self> {
        if u64::MIN as i128 <= v && v <= u64::MAX as i128 {
            Some(v as u64)
        } else {
            None
        }
    }
}

} // verus!
