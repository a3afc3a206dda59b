//! The capabilities of the primitive integers.
//!
//! Every primitive integer has a one, and every signed one an absolute value.
//! Square roots are given to `i64`, rounded down.

use crate::scalar::{One, Root, Signed};
use crate::sqrt::{floor_sqrt, floor_sqrt_u128};
use vstd::prelude::*;

verus! {

/// The integer 1, as `u8`.
impl One for u8 {
    open spec fn obeys_one_spec() -> bool {
        true
    }

    open spec fn one_spec() -> u8 {
        1
    }

    fn one() -> u8 {
        1
    }
}

/// The integer 1, as `u16`.
impl One for u16 {
    open spec fn obeys_one_spec() -> bool {
        true
    }

    open spec fn one_spec() -> u16 {
        1
    }

    fn one() -> u16 {
        1
    }
}

/// The integer 1, as `u32`.
impl One for u32 {
    open spec fn obeys_one_spec() -> bool {
        true
    }

    open spec fn one_spec() -> u32 {
        1
    }

    fn one() -> u32 {
        1
    }
}

/// The integer 1, as `u64`.
impl One for u64 {
    open spec fn obeys_one_spec() -> bool {
        true
    }

    open spec fn one_spec() -> u64 {
        1
    }

    fn one() -> u64 {
        1
    }
}

/// The integer 1, as `u128`.
impl One for u128 {
    open spec fn obeys_one_spec() -> bool {
        true
    }

    open spec fn one_spec() -> u128 {
        1
    }

    fn one() -> u128 {
        1
    }
}

/// The integer 1, as `usize`.
impl One for usize {
    open spec fn obeys_one_spec() -> bool {
        true
    }

    open spec fn one_spec() -> usize {
        1
    }

    fn one() -> usize {
        1
    }
}

/// The integer 1, as `i8`.
impl One for i8 {
    open spec fn obeys_one_spec() -> bool {
        true
    }

    open spec fn one_spec() -> i8 {
        1
    }

    fn one() -> i8 {
        1
    }
}

/// The integer 1, as `i16`.
impl One for i16 {
    open spec fn obeys_one_spec() -> bool {
        true
    }

    open spec fn one_spec() -> i16 {
        1
    }

    fn one() -> i16 {
        1
    }
}

/// The integer 1, as `i32`.
impl One for i32 {
    open spec fn obeys_one_spec() -> bool {
        true
    }

    open spec fn one_spec() -> i32 {
        1
    }

    fn one() -> i32 {
        1
    }
}

/// The integer 1, as `i64`.
impl One for i64 {
    open spec fn obeys_one_spec() -> bool {
        true
    }

    open spec fn one_spec() -> i64 {
        1
    }

    fn one() -> i64 {
        1
    }
}

/// The integer 1, as `i128`.
impl One for i128 {
    open spec fn obeys_one_spec() -> bool {
        true
    }

    open spec fn one_spec() -> i128 {
        1
    }

    fn one() -> i128 {
        1
    }
}

/// The integer 1, as `isize`.
impl One for isize {
    open spec fn obeys_one_spec() -> bool {
        true
    }

    open spec fn one_spec() -> isize {
        1
    }

    fn one() -> isize {
        1
    }
}

/// The absolute value of every `i8` but the least, which has none in the type.
impl Signed for i8 {
    open spec fn obeys_abs_spec() -> bool {
        true
    }

    open spec fn abs_req(self) -> bool {
        self != i8::MIN
    }

    open spec fn abs_spec(self) -> i8 {
        if self < 0 {
            (-self) as i8
        } else {
            self
        }
    }

    fn abs(self) -> i8 {
        if self < 0 {
            -self
        } else {
            self
        }
    }
}

/// The absolute value of every `i16` but the least, which has none in the type.
impl Signed for i16 {
    open spec fn obeys_abs_spec() -> bool {
        true
    }

    open spec fn abs_req(self) -> bool {
        self != i16::MIN
    }

    open spec fn abs_spec(self) -> i16 {
        if self < 0 {
            (-self) as i16
        } else {
            self
        }
    }

    fn abs(self) -> i16 {
        if self < 0 {
            -self
        } else {
            self
        }
    }
}

/// The absolute value of every `i32` but the least, which has none in the type.
impl Signed for i32 {
    open spec fn obeys_abs_spec() -> bool {
        true
    }

    open spec fn abs_req(self) -> bool {
        self != i32::MIN
    }

    open spec fn abs_spec(self) -> i32 {
        if self < 0 {
            (-self) as i32
        } else {
            self
        }
    }

    fn abs(self) -> i32 {
        if self < 0 {
            -self
        } else {
            self
        }
    }
}

/// The absolute value of every `i64` but the least, which has none in the type.
impl Signed for i64 {
    open spec fn obeys_abs_spec() -> bool {
        true
    }

    open spec fn abs_req(self) -> bool {
        self != i64::MIN
    }

    open spec fn abs_spec(self) -> i64 {
        if self < 0 {
            (-self) as i64
        } else {
            self
        }
    }

    fn abs(self) -> i64 {
        if self < 0 {
            -self
        } else {
            self
        }
    }
}

/// The absolute value of every `i128` but the least, which has none in the type.
impl Signed for i128 {
    open spec fn obeys_abs_spec() -> bool {
        true
    }

    open spec fn abs_req(self) -> bool {
        self != i128::MIN
    }

    open spec fn abs_spec(self) -> i128 {
        if self < 0 {
            (-self) as i128
        } else {
            self
        }
    }

    fn abs(self) -> i128 {
        if self < 0 {
            -self
        } else {
            self
        }
    }
}

/// The absolute value of every `isize` but the least, which has none in the type.
impl Signed for isize {
    open spec fn obeys_abs_spec() -> bool {
        true
    }

    open spec fn abs_req(self) -> bool {
        self != isize::MIN
    }

    open spec fn abs_spec(self) -> isize {
        if self < 0 {
            (-self) as isize
        } else {
            self
        }
    }

    fn abs(self) -> isize {
        if self < 0 {
            -self
        } else {
            self
        }
    }
}

/// The absolute value of `x`, in a type wide enough for its square.
fn magnitude_of(x: i64) -> (a: u128)
    ensures
        a * a == x * x,
        a <= 0x8000_0000_0000_0000,
{
    let wide: i128 = x as i128;
    let a: u128 = if wide < 0 {
        (-wide) as u128
    } else {
        wide as u128
    };
    assert(a * a == x * x) by (nonlinear_arith)
        requires
            a == x || a == -x,
    ;
    a
}

/// The length of the hypotenuse over `x` and `y`, rounded down, in a type wide
/// enough for every pair.
fn hypotenuse(x: i64, y: i64) -> (r: u128)
    ensures
        r == floor_sqrt(x * x + y * y),
        r * r <= x * x + y * y,
{
    let a: u128 = magnitude_of(x);
    let b: u128 = magnitude_of(y);
    assert(a * a <= 0x4000_0000_0000_0000_0000_0000_0000_0000) by (nonlinear_arith)
        requires
            a <= 0x8000_0000_0000_0000,
    ;
    assert(b * b <= 0x4000_0000_0000_0000_0000_0000_0000_0000) by (nonlinear_arith)
        requires
            b <= 0x8000_0000_0000_0000,
    ;
    floor_sqrt_u128(a * a + b * b)
}

/// Roots rounded down to an integer. The hypotenuse is computed in a wider
/// type, so that it is defined wherever the result itself can be represented:
/// where the sum of the squares is below the square of `2^63`.
impl Root for i64 {
    open spec fn obeys_root_spec() -> bool {
        true
    }

    open spec fn sqrt_req(self) -> bool {
        0 <= self
    }

    open spec fn sqrt_spec(self) -> i64 {
        floor_sqrt(self as int) as i64
    }

    open spec fn hypot_req(self, other: i64) -> bool {
        self * self + other * other < 0x4000_0000_0000_0000_0000_0000_0000_0000
    }

    open spec fn hypot_spec(self, other: i64) -> i64 {
        floor_sqrt(self * self + other * other) as i64
    }

    fn sqrt(self) -> i64 {
        let r: u128 = floor_sqrt_u128(self as u128);
        assert(r <= self) by (nonlinear_arith)
            requires
                0 <= r,
                r * r <= self,
        ;
        r as i64
    }

    fn hypot(self, other: i64) -> i64 {
        let r: u128 = hypotenuse(self, other);
        assert(r <= i64::MAX) by (nonlinear_arith)
            requires
                0 <= r,
                r * r < 0x4000_0000_0000_0000_0000_0000_0000_0000,
        ;
        r as i64
    }
}

} // verus!
