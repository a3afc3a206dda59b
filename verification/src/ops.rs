//! The operators of `core::ops` on vectors: `+`, `-`, `*` and `/` by a scalar,
//! `*` between two vectors, and unary `-`.
//!
//! Each operator is defined where the scalar's own operator is defined on the
//! components, and obeys its specification where the scalar's does.

use crate::vector::Vector2;
use core::ops::{Add, Div, Mul, Neg, Sub};
use vstd::prelude::*;
use vstd::std_specs::ops::{
    AddSpec, AddSpecImpl, DivSpec, DivSpecImpl, MulSpec, MulSpecImpl, NegSpec, NegSpecImpl,
    SubSpec, SubSpecImpl,
};

verus! {

impl<T: Add<Output = T>> AddSpecImpl for Vector2<T> {
    open spec fn obeys_add_spec() -> bool {
        T::obeys_add_spec()
    }

    open spec fn add_req(self, rhs: Vector2<T>) -> bool {
        self.0.add_req(rhs.0) && self.1.add_req(rhs.1)
    }

    open spec fn add_spec(self, rhs: Vector2<T>) -> Vector2<T> {
        Vector2(self.0.add_spec(rhs.0), self.1.add_spec(rhs.1))
    }
}

/// The componentwise sum, defined where `add_req` holds.
impl<T: Add<Output = T>> Add for Vector2<T> {
    type Output = Vector2<T>;

    fn add(self, rhs: Vector2<T>) -> (sum: Vector2<T>)
        ensures
            T::obeys_add_spec() ==> sum == Vector2(self.0.add_spec(rhs.0), self.1.add_spec(rhs.1)),
    {
        Vector2(self.0 + rhs.0, self.1 + rhs.1)
    }
}

impl<T: Sub<Output = T>> SubSpecImpl for Vector2<T> {
    open spec fn obeys_sub_spec() -> bool {
        T::obeys_sub_spec()
    }

    open spec fn sub_req(self, rhs: Vector2<T>) -> bool {
        self.0.sub_req(rhs.0) && self.1.sub_req(rhs.1)
    }

    open spec fn sub_spec(self, rhs: Vector2<T>) -> Vector2<T> {
        Vector2(self.0.sub_spec(rhs.0), self.1.sub_spec(rhs.1))
    }
}

/// The componentwise difference, defined where `sub_req` holds.
impl<T: Sub<Output = T>> Sub for Vector2<T> {
    type Output = Vector2<T>;

    fn sub(self, rhs: Vector2<T>) -> (difference: Vector2<T>)
        ensures
            T::obeys_sub_spec() ==> difference == Vector2(self.0.sub_spec(rhs.0), self.1.sub_spec(rhs.1)),
    {
        Vector2(self.0 - rhs.0, self.1 - rhs.1)
    }
}

impl<T: Copy + Mul<Output = T>> MulSpecImpl<T> for Vector2<T> {
    open spec fn obeys_mul_spec() -> bool {
        T::obeys_mul_spec()
    }

    open spec fn mul_req(self, rhs: T) -> bool {
        self.scale_req(rhs)
    }

    open spec fn mul_spec(self, rhs: T) -> Vector2<T> {
        self.scale_spec(rhs)
    }
}

/// Both components multiplied by a scalar, defined where `mul_req` holds.
impl<T: Copy + Mul<Output = T>> Mul<T> for Vector2<T> {
    type Output = Vector2<T>;

    fn mul(self, rhs: T) -> (scaled: Vector2<T>)
        ensures
            T::obeys_mul_spec() ==> scaled == self.scale_spec(rhs),
    {
        self.scale(rhs)
    }
}

impl<T: Copy + Mul<Output = T> + Add<Output = T>> MulSpecImpl<Vector2<T>> for Vector2<T> {
    open spec fn obeys_mul_spec() -> bool {
        true
    }

    open spec fn mul_req(self, rhs: Vector2<T>) -> bool {
        self.dot_req(rhs)
    }

    open spec fn mul_spec(self, rhs: Vector2<T>) -> T {
        self.dot_spec(rhs)
    }
}

/// The dot product, defined where `mul_req` holds; `dot_product` is its named form.
impl<T: Copy + Mul<Output = T> + Add<Output = T>> Mul<Vector2<T>> for Vector2<T> {
    type Output = T;

    fn mul(self, rhs: Vector2<T>) -> (d: T)
        ensures
            d == self.dot_spec(rhs),
    {
        self.dot_product(&rhs)
    }
}

impl<T: Copy + Div<Output = T>> DivSpecImpl<T> for Vector2<T> {
    open spec fn obeys_div_spec() -> bool {
        T::obeys_div_spec()
    }

    open spec fn div_req(self, rhs: T) -> bool {
        self.0.div_req(rhs) && self.1.div_req(rhs)
    }

    open spec fn div_spec(self, rhs: T) -> Vector2<T> {
        Vector2(self.0.div_spec(rhs), self.1.div_spec(rhs))
    }
}

/// Both components divided by a scalar, defined where `div_req` holds: for an
/// integer scalar, not by zero.
impl<T: Copy + Div<Output = T>> Div<T> for Vector2<T> {
    type Output = Vector2<T>;

    fn div(self, rhs: T) -> (quotient: Vector2<T>)
        ensures
            T::obeys_div_spec() ==> quotient == Vector2(self.0.div_spec(rhs), self.1.div_spec(rhs)),
    {
        Vector2(self.0 / rhs, self.1 / rhs)
    }
}

impl<T: Neg<Output = T>> NegSpecImpl for Vector2<T> {
    open spec fn obeys_neg_spec() -> bool {
        T::obeys_neg_spec()
    }

    open spec fn neg_req(self) -> bool {
        self.0.neg_req() && self.1.neg_req()
    }

    open spec fn neg_spec(self) -> Vector2<T> {
        Vector2(self.0.neg_spec(), self.1.neg_spec())
    }
}

/// The componentwise negation, defined where `neg_req` holds.
impl<T: Neg<Output = T>> Neg for Vector2<T> {
    type Output = Vector2<T>;

    fn neg(self) -> (negated: Vector2<T>)
        ensures
            T::obeys_neg_spec() ==> negated == Vector2(self.0.neg_spec(), self.1.neg_spec()),
    {
        Vector2(self.0.neg(), self.1.neg())
    }
}

} // verus!
