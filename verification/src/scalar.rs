//! Capabilities a scalar type may offer beyond the operators of `core::ops`.
//!
//! Each trait names one capability, so that every vector operation can ask for
//! exactly the capabilities it uses. A capability comes with spec functions that
//! say when the operation is defined and what it returns, and with a flag that
//! says whether the type keeps to them. The defaults promise nothing: an
//! implementation that only computes, and states no specification, is held to
//! nothing.

use vstd::prelude::*;

verus! {

/// A scalar with a multiplicative identity.
pub trait One: Sized {
    /// Whether `one` returns exactly `one_spec`.
    open spec fn obeys_one_spec() -> bool {
        false
    }

    /// What `one` returns.
    open spec fn one_spec() -> Self {
        arbitrary()
    }

    /// The multiplicative identity.
    fn one() -> (r: Self)
        ensures
            Self::obeys_one_spec() ==> r == Self::one_spec(),
    ;
}

/// A scalar with a sign, of which the absolute value can be taken.
pub trait Signed: Sized {
    /// Whether `abs` returns exactly what `abs_spec` says.
    open spec fn obeys_abs_spec() -> bool {
        false
    }

    /// Whether the absolute value of `self` can be represented.
    open spec fn abs_req(self) -> bool {
        true
    }

    /// What `abs` returns.
    open spec fn abs_spec(self) -> Self {
        arbitrary()
    }

    /// The absolute value of `self`.
    fn abs(self) -> (r: Self)
        requires
            self.abs_req(),
        ensures
            Self::obeys_abs_spec() ==> r == self.abs_spec(),
    ;
}

/// A scalar of which square roots can be taken.
pub trait Root: Sized {
    /// Whether `sqrt` and `hypot` return exactly what `sqrt_spec` and `hypot_spec` say.
    open spec fn obeys_root_spec() -> bool {
        false
    }

    /// Whether the square root of `self` is defined.
    open spec fn sqrt_req(self) -> bool {
        true
    }

    /// What `sqrt` returns.
    open spec fn sqrt_spec(self) -> Self {
        arbitrary()
    }

    /// Whether the length of the hypotenuse over `self` and `other` can be represented.
    open spec fn hypot_req(self, other: Self) -> bool {
        true
    }

    /// What `hypot` returns.
    open spec fn hypot_spec(self, other: Self) -> Self {
        arbitrary()
    }

    /// The square root of `self`.
    fn sqrt(self) -> (r: Self)
        requires
            self.sqrt_req(),
        ensures
            Self::obeys_root_spec() ==> r == self.sqrt_spec(),
    ;

    /// The length of the hypotenuse over `self` and `other`, however large their
    /// squares may be.
    fn hypot(self, other: Self) -> (r: Self)
        requires
            self.hypot_req(other),
        ensures
            Self::obeys_root_spec() ==> r == self.hypot_spec(other),
    ;
}

} // verus!
