//! The vector type and its named operations.
//!
//! Every operation is generic over the scalar and asks of it only the
//! capabilities that it uses. Its contract is stated over the scalar's own
//! specification of those capabilities: `X_req` says where the operation is
//! defined, `X_spec` what it returns. An operation of several steps is defined
//! only for a scalar whose operators return exactly what they specify, since
//! each step works on the result of the one before.

use crate::scalar::{One, Root, Signed};
use core::ops::{Add, Div, Mul};
use vstd::prelude::*;
use vstd::std_specs::cmp::{PartialEqSpec, PartialEqSpecImpl, PartialOrdIs, PartialOrdSpec};
use vstd::std_specs::ops::{AddSpec, DivSpec, MulSpec};
use vstd::string::{to_string_from_display_ensures, StringExecFns};

verus! {

/// An ordered pair `(x, y)` of scalars: a position, a velocity, a displacement or a size.
///
/// A vector is nothing but its two components: it is copied freely, and two
/// vectors are equal where their components are.
pub struct Vector2<T>(pub T, pub T);

/// Two vectors are equal where both of their components are.
impl<T: PartialEq> PartialEq for Vector2<T> {
    fn eq(&self, other: &Vector2<T>) -> (r: bool) {
        self.0 == other.0 && self.1 == other.1
    }
}

impl<T: PartialEq> PartialEqSpecImpl for Vector2<T> {
    open spec fn obeys_eq_spec() -> bool {
        T::obeys_eq_spec()
    }

    open spec fn eq_spec(&self, other: &Vector2<T>) -> bool {
        self.0.eq_spec(&other.0) && self.1.eq_spec(&other.1)
    }
}

/// A vector of copyable scalars is copied, component by component.
impl<T: Copy> Clone for Vector2<T> {
    fn clone(&self) -> (v: Vector2<T>)
        ensures
            v == *self,
    {
        *self
    }
}

impl<T: Copy> Copy for Vector2<T> {

}

impl<T> Vector2<T> {
    /// The vector `(x, y)`.
    pub fn new(x: T, y: T) -> (v: Vector2<T>)
        ensures
            v == Vector2(x, y),
    {
        Vector2(x, y)
    }
}

impl<T: One> Vector2<T> {
    /// The vector whose two components are the scalar's multiplicative identity.
    pub open spec fn one_spec() -> Vector2<T> {
        Vector2(T::one_spec(), T::one_spec())
    }

    /// The vector `(1, 1)`.
    pub fn one() -> (v: Vector2<T>)
        ensures
            T::obeys_one_spec() ==> v == Self::one_spec(),
    {
        Vector2(T::one(), T::one())
    }
}

impl<T: Copy + Signed> Vector2<T> {
    /// Whether the absolute value of both components can be represented.
    pub open spec fn abs_req(self) -> bool {
        self.0.abs_req() && self.1.abs_req()
    }

    /// The vector of the absolute values of the components.
    pub open spec fn abs_spec(self) -> Vector2<T> {
        Vector2(self.0.abs_spec(), self.1.abs_spec())
    }

    /// The componentwise absolute value.
    pub fn abs(&self) -> (v: Vector2<T>)
        requires
            self.abs_req(),
        ensures
            T::obeys_abs_spec() ==> v == self.abs_spec(),
    {
        Vector2(self.0.abs(), self.1.abs())
    }
}

impl<T: Copy + Mul<Output = T>> Vector2<T> {
    /// Whether both components can be multiplied by `factor`.
    pub open spec fn scale_req(self, factor: T) -> bool {
        self.0.mul_req(factor) && self.1.mul_req(factor)
    }

    /// Both components multiplied by `factor`.
    pub open spec fn scale_spec(self, factor: T) -> Vector2<T> {
        Vector2(self.0.mul_spec(factor), self.1.mul_spec(factor))
    }

    /// Multiplies both components by `factor`, as the operator `*` with a scalar does.
    pub fn scale(&self, factor: T) -> (v: Vector2<T>)
        requires
            self.scale_req(factor),
        ensures
            T::obeys_mul_spec() ==> v == self.scale_spec(factor),
    {
        Vector2(self.0 * factor, self.1 * factor)
    }
}

impl<T: Copy + Mul<Output = T> + Add<Output = T>> Vector2<T> {
    /// Whether the dot product with `other` is defined: the scalar's operators
    /// return what they specify, and neither product nor their sum leaves the type.
    pub open spec fn dot_req(self, other: Vector2<T>) -> bool {
        &&& T::obeys_mul_spec()
        &&& T::obeys_add_spec()
        &&& self.0.mul_req(other.0)
        &&& self.1.mul_req(other.1)
        &&& self.0.mul_spec(other.0).add_req(self.1.mul_spec(other.1))
    }

    /// The dot product `x1 * x2 + y1 * y2`.
    pub open spec fn dot_spec(self, other: Vector2<T>) -> T {
        self.0.mul_spec(other.0).add_spec(self.1.mul_spec(other.1))
    }

    /// The dot product of the two vectors, as the operator `*` between vectors gives it.
    pub fn dot_product(&self, other: &Vector2<T>) -> (d: T)
        requires
            self.dot_req(*other),
        ensures
            d == self.dot_spec(*other),
    {
        self.0 * other.0 + self.1 * other.1
    }
}

impl<T: Copy + Root> Vector2<T> {
    /// Whether the length can be represented.
    pub open spec fn magnitude_req(self) -> bool {
        self.0.hypot_req(self.1)
    }

    /// The Euclidean length of the vector.
    pub open spec fn magnitude_spec(self) -> T {
        self.0.hypot_spec(self.1)
    }

    /// The Euclidean length, left to the scalar's own hypotenuse, which need
    /// not square the components in the scalar type.
    ///
    /// Over `i64` the length is rounded down: see `sqrt::floor_sqrt`.
    pub fn magnitude(&self) -> (m: T)
        requires
            self.magnitude_req(),
        ensures
            T::obeys_root_spec() ==> m == self.magnitude_spec(),
    {
        self.0.hypot(self.1)
    }
}

impl<T: Copy + Div<Output = T> + Root> Vector2<T> {
    /// Whether the unit vector is defined: the scalar's operators return what
    /// they specify, the length can be represented, and both components can be
    /// divided by it. No scalar that refuses to divide by zero has a unit
    /// vector for the zero vector.
    pub open spec fn unit_req(self) -> bool {
        &&& T::obeys_root_spec()
        &&& T::obeys_div_spec()
        &&& self.magnitude_req()
        &&& self.div_req(self.magnitude_spec())
    }

    /// The vector divided by its own length.
    pub open spec fn unit_spec(self) -> Vector2<T> {
        self.div_spec(self.magnitude_spec())
    }

    /// The vector of the same direction and of length 1, as far as the scalar
    /// can express it.
    ///
    /// Over `i64`, `laws::lemma_defined` gives a range of vectors on which this is
    /// defined, and `laws::lemma_unit_magnitude` the components that come out.
    pub fn unit(&self) -> (u: Vector2<T>)
        requires
            self.unit_req(),
        ensures
            u == self.unit_spec(),
    {
        *self / self.magnitude()
    }
}

impl<T: Copy + Mul<Output = T> + Add<Output = T> + Div<Output = T> + PartialOrd + Root> Vector2<T> {
    /// The square of the length, `x * x + y * y`.
    pub open spec fn norm_squared_spec(self) -> T {
        self.dot_spec(self)
    }

    /// Whether the vector is longer than `magnitude`, judged on the squares.
    pub open spec fn exceeds(self, magnitude: T) -> bool {
        self.norm_squared_spec().is_gt(&magnitude.mul_spec(magnitude))
    }

    /// The factor that brings a vector longer than `magnitude` back to that
    /// length: `magnitude` divided by the length.
    pub open spec fn limit_factor(self, magnitude: T) -> T {
        magnitude.div_spec(self.norm_squared_spec().sqrt_spec())
    }

    /// Whether clamping to `magnitude` is defined: the scalar's operators return
    /// what they specify, both squares can be represented, and, where the vector
    /// is longer than `magnitude`, so can the factor and the rescaled components.
    pub open spec fn limit_req(self, magnitude: T) -> bool {
        &&& T::obeys_div_spec()
        &&& T::obeys_partial_cmp_spec()
        &&& T::obeys_root_spec()
        &&& self.dot_req(self)
        &&& magnitude.mul_req(magnitude)
        &&& self.exceeds(magnitude) ==> {
            &&& self.norm_squared_spec().sqrt_req()
            &&& magnitude.div_req(self.norm_squared_spec().sqrt_spec())
            &&& self.scale_req(self.limit_factor(magnitude))
        }
    }

    /// The vector clamped to `magnitude`: itself where it is no longer than
    /// that, else rescaled to that length, in its own direction.
    pub open spec fn limit_spec(self, magnitude: T) -> Vector2<T> {
        if self.exceeds(magnitude) {
            self.scale_spec(self.limit_factor(magnitude))
        } else {
            self
        }
    }

    /// Clamps the vector to the length `magnitude`, in place. Lengths are
    /// compared by their squares, so that a vector within the limit costs no
    /// square root.
    ///
    /// Over `i64`, `laws::lemma_defined` gives a range of vectors and limits on
    /// which this is defined, and `laws::lemma_limit_magnitude` the vector that
    /// is left.
    pub fn limit_magnitude(&mut self, magnitude: T)
        requires
            old(self).limit_req(magnitude),
        ensures
            *final(self) == old(self).limit_spec(magnitude),
    {
        let current = self.0 * self.0 + self.1 * self.1;
        if current > magnitude * magnitude {
            let d = magnitude / current.sqrt();
            self.0 = self.0 * d;
            self.1 = self.1 * d;
        }
    }
}

impl<T: Copy + Mul<Output = T> + Add<Output = T> + Div<Output = T>> Vector2<T> {
    /// The factor by which `other` is scaled to give the projection onto it:
    /// `dot(self, other) / dot(other, other)`.
    pub open spec fn project_factor(self, other: Vector2<T>) -> T {
        self.dot_spec(other).div_spec(other.dot_spec(other))
    }

    /// Whether the projection onto `other` is defined: the scalar's operators
    /// return what they specify, both dot products are defined, the first can
    /// be divided by the second, and `other` can be scaled by the quotient. No
    /// scalar that refuses to divide by zero has a projection onto the zero
    /// vector.
    pub open spec fn project_req(self, other: Vector2<T>) -> bool {
        &&& T::obeys_div_spec()
        &&& self.dot_req(other)
        &&& other.dot_req(other)
        &&& self.dot_spec(other).div_req(other.dot_spec(other))
        &&& other.scale_req(self.project_factor(other))
    }

    /// The projection of `self` onto `other`.
    pub open spec fn project_spec(self, other: Vector2<T>) -> Vector2<T> {
        other.scale_spec(self.project_factor(other))
    }

    /// The part of `self` that lies along `other`.
    pub fn project(&self, other: &Vector2<T>) -> (p: Vector2<T>)
        requires
            self.project_req(*other),
        ensures
            p == self.project_spec(*other),
    {
        *other * (self.dot_product(other) / other.dot_product(other))
    }
}

/// The text `vec(x,y)` around two rendered components.
pub open spec fn rendering(x: Seq<char>, y: Seq<char>) -> Seq<char> {
    "vec("@ + x + ","@ + y + ")"@
}

/// Puts two rendered components into the form `vec(x,y)`.
pub fn render(x: &str, y: &str) -> (s: String)
    ensures
        s@ == rendering(x@, y@),
{
    let mut s = String::from_str("vec(");
    s.append(x);
    s.append(",");
    s.append(y);
    s.append(")");
    s
}

impl<T: core::fmt::Display> Vector2<T> {
    /// Renders the vector as `vec(x,y)`, each component as the scalar displays itself.
    pub fn to_string(&self) -> (s: String)
        ensures
            exists|x: String, y: String|
                {
                    &&& #[trigger] to_string_from_display_ensures(&self.0, x)
                    &&& #[trigger] to_string_from_display_ensures(&self.1, y)
                    &&& s@ == rendering(x@, y@)
                },
    {
        let x = self.0.to_string();
        let y = self.1.to_string();
        render(x.as_str(), y.as_str())
    }
}

} // verus!
