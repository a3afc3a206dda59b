//! Two-component vectors over any numeric scalar, with verified arithmetic and geometry.
//!
//! - `vector` holds the type `Vector2` and its named operations;
//! - `ops` gives it the operators `+`, `-`, `*`, `/` and unary `-`;
//! - `scalar` names what an operation may ask of the scalar beyond `core::ops`:
//!   a one, an absolute value, square roots;
//! - `integers` gives the primitive integers their one and their absolute
//!   value, and `i64` its square roots;
//! - `sqrt` is the square root of an integer, rounded down;
//! - `laws` states what holds of every vector over `i64`, where all arithmetic
//!   is exact.
//!
//! A scalar of the caller's own, such as a wrapper around a floating-point
//! number, joins by implementing the operators and the capability traits. The
//! operations then run on it as they are; what they promise of the result is
//! what the scalar promises of its own operators.

pub mod integers;
pub mod laws;
pub mod ops;
pub mod scalar;
pub mod sqrt;
pub mod vector;

pub use scalar::{One, Root, Signed};
pub use vector::{render, Vector2};
