//! A generic four-component numeric container with verified elementwise
//! arithmetic.
//!
//! [`coords::Vec4`] holds four named scalars `x, y, z, w` of one type and
//! lifts the scalar operations to the tuple field by field: addition,
//! subtraction, multiplication, division (each with an in-place variant),
//! negation, equality, and the additive and multiplicative identity elements
//! with their predicates and in-place resets.
//!
//! The scalar type is anything implementing [`scalar::Scalar`] — a minimal
//! ring-like capability set with proven identity laws — with negation as the
//! separate, stricter capability [`scalar::SignedScalar`]. Every operation
//! carries a contract pinning its result to the scalar operations, and the
//! algebraic laws of the container are stated and proved once, for every
//! scalar type.

pub mod coords;
pub mod scalar;
