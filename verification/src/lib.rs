//! Axis-aligned geometry over integer-like scalars: fixed-dimension vector
//! types (`Vector2`, `Vector3`, `Vector4`) and rectangle/box types (`Rect2`,
//! `Rect3`) built from pairs of corner vectors, with component-wise
//! arithmetic in plain, checked, saturating and wrapping flavours, plus dot
//! and cross products. Every operation carries a contract that pins its
//! result down to the mathematical value of each component.
//!
//! The scalar types are described by the [`Scalar`] trait, whose every
//! operation is specified through the mathematical value of a scalar; the
//! fixed-width integer types implement it. Scalars are `Copy`, so operators
//! take their operands by value; the reading conversions (`ref_convert`,
//! `try_ref_convert`) and the size and ordering queries borrow instead.
//!
//! Rectangles carry no invariant that their corners are ordered: being
//! ordered or positive are derived predicates, and a rectangle is
//! canonicalized per axis only where an ordering operation is applied.

mod ops;
mod rect;
mod scalar;
mod vector;

pub use scalar::{ArithError, ConvertError, Scalar};
pub use scalar::{clamp_int, fits, trunc_div, wrap_int};
pub use scalar::{add_err, div_err, first_err, mul_err, neg_err, sub_err};
pub use scalar::{convert_scalar, try_convert_scalar};
pub use scalar::lemma_saturating_wrapping_in_range;
pub use ops::{cross, dot, Cross, Dot};
pub use ops::{cross_x_int, cross_y_int, cross_z_int};
pub use ops::{
    lemma_cross_anticommutative, lemma_cross_orthogonal, lemma_dot_commutative_2,
    lemma_dot_commutative_3, lemma_dot_commutative_4,
};
pub use rect::{Rect2, Rect3};
pub use rect::{partial_max_spec, partial_min_spec, sort_spec};
pub use rect::{lemma_expand_self_rect2, lemma_expand_self_rect3};
pub use vector::{vec2, vec3, vec4, Vector2, Vector3, Vector4};
pub use vector::{
    lemma_vector2_array_round_trip, lemma_vector2_tuple_round_trip,
    lemma_vector3_array_round_trip, lemma_vector3_tuple_round_trip,
    lemma_vector4_array_round_trip, lemma_vector4_tuple_round_trip,
};
