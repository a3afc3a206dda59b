//! What holds of vectors over the 64-bit integers, where every operator is exact.
//!
//! Lengths are rounded down to an integer, as the scalar's roots are. A
//! scalar that rounds otherwise, such as a floating-point number, meets these
//! statements only up to its own rounding.

use crate::scalar::Root;
use crate::sqrt::{floor_sqrt, lemma_floor_sqrt, lemma_floor_sqrt_is};
use crate::vector::Vector2;
use vstd::prelude::*;
use vstd::std_specs::ops::{DivSpec, MulSpec};

verus! {

/// The dot product is commutative: `dot(a, b)` is defined exactly where
/// `dot(b, a)` is, and the two are equal.
pub proof fn lemma_dot_product_commutes(a: Vector2<i64>, b: Vector2<i64>)
    ensures
        a.dot_req(b) == b.dot_req(a),
        a.dot_spec(b) == b.dot_spec(a),
{
    assert(a.0 * b.0 == b.0 * a.0) by (nonlinear_arith);
    assert(a.1 * b.1 == b.1 * a.1) by (nonlinear_arith);
}

/// Scaling by a non-zero `s` and dividing by `s` again gives the vector back,
/// wherever the scaled vector can be represented.
pub proof fn lemma_scale_then_divide(v: Vector2<i64>, s: i64)
    requires
        s != 0,
        v.scale_req(s),
    ensures
        v.scale_spec(s).div_req(s),
        v.scale_spec(s).div_spec(s) == v,
{
    lemma_product_divides(v.0 as int, s as int);
    lemma_product_divides(v.1 as int, s as int);
}

/// Truncating division undoes a multiplication: `(k * s) / s == k`, whatever the signs.
proof fn lemma_product_divides(k: int, s: int)
    requires
        s != 0,
    ensures
        (k * s) / s == k,
        -((-(k * s)) / s) == k,
        s == -1 ==> k * s == -k,
{
    assert((k * s) / s == k) by (nonlinear_arith)
        requires
            s != 0,
    ;
    assert(-(k * s) == (-k) * s) by (nonlinear_arith);
    assert(((-k) * s) / s == -k) by (nonlinear_arith)
        requires
            s != 0,
    ;
    assert(s == -1 ==> k * s == -k) by (nonlinear_arith);
}

/// The square of the length of `v`, over the integers.
pub open spec fn norm_squared(v: Vector2<i64>) -> int {
    v.0 * v.0 + v.1 * v.1
}

/// A sum of two squares is no smaller than either, and is 0 only for two zeros.
proof fn lemma_norm_squared(v: Vector2<i64>)
    ensures
        0 <= v.0 * v.0 <= norm_squared(v),
        0 <= v.1 * v.1 <= norm_squared(v),
        norm_squared(v) == 0 <==> v == Vector2(0i64, 0i64),
{
    assert(0 <= v.0 * v.0 && (v.0 * v.0 == 0 <==> v.0 == 0)) by (nonlinear_arith);
    assert(0 <= v.1 * v.1 && (v.1 * v.1 == 0 <==> v.1 == 0)) by (nonlinear_arith);
}

/// The length of `v`, rounded down, is the magnitude wherever that is defined.
proof fn lemma_magnitude(v: Vector2<i64>)
    requires
        v.magnitude_req(),
    ensures
        v.magnitude_spec() == floor_sqrt(norm_squared(v)),
{
    let r = floor_sqrt(norm_squared(v));
    lemma_norm_squared(v);
    lemma_floor_sqrt(norm_squared(v));
    assert(r <= i64::MAX) by (nonlinear_arith)
        requires
            0 <= r,
            r * r < 0x4000_0000_0000_0000_0000_0000_0000_0000,
    ;
}

/// The magnitude is never negative, and is 0 for the zero vector alone.
pub proof fn lemma_magnitude_sign(v: Vector2<i64>)
    requires
        v.magnitude_req(),
    ensures
        0 <= v.magnitude_spec(),
        v.magnitude_spec() == 0 <==> v == Vector2(0i64, 0i64),
{
    let r = floor_sqrt(norm_squared(v));
    lemma_norm_squared(v);
    lemma_floor_sqrt(norm_squared(v));
    lemma_magnitude(v);
    assert(r == 0 || 1 <= r * r) by (nonlinear_arith)
        requires
            0 <= r,
    ;
    assert(r == 0 ==> (r + 1) * (r + 1) == 1) by (nonlinear_arith);
}

/// Clamping to a limit `m >= 0` leaves a vector whose magnitude is at most `m`,
/// and changes nothing where the magnitude was at most `m` before. Over the
/// integers the clamped vector is the vector itself where the square of its
/// length is below `(m + 1) * (m + 1)`, and the zero vector where it is not.
pub proof fn lemma_limit_magnitude(v: Vector2<i64>, m: i64)
    requires
        0 <= m,
        v.limit_req(m),
    ensures
        v.magnitude_req(),
        v.limit_spec(m).magnitude_req(),
        v.limit_spec(m).magnitude_spec() <= m,
        v.magnitude_spec() <= m ==> v.limit_spec(m) == v,
        v.limit_spec(m) == if norm_squared(v) < (m + 1) * (m + 1) {
            v
        } else {
            Vector2(0i64, 0i64)
        },
{
    let n = norm_squared(v);
    let r = floor_sqrt(n);
    lemma_norm_squared(v);
    lemma_floor_sqrt(n);
    assert(v.norm_squared_spec() == n);
    assert(r <= i64::MAX) by (nonlinear_arith)
        requires
            0 <= r,
            r * r <= n,
            n <= i64::MAX,
    ;
    if n > m * m {
        assert(v.exceeds(m));
        assert(1 <= r && m <= r) by (nonlinear_arith)
            requires
                0 <= r,
                0 <= m,
                m * m < n,
                n < (r + 1) * (r + 1),
        ;
        let d = v.limit_factor(m);
        if m == r {
            assert(m as int / r == 1) by (nonlinear_arith)
                requires
                    m == r,
                    1 <= r,
            ;
            assert(d == 1);
            assert(v.0 * 1 == v.0 && v.1 * 1 == v.1);
            assert(v.limit_spec(m) == v);
        } else {
            assert(m as int / r == 0) by (nonlinear_arith)
                requires
                    0 <= m < r,
            ;
            assert(d == 0);
            assert(v.0 * 0 == 0 && v.1 * 0 == 0);
            assert(v.limit_spec(m) == Vector2(0i64, 0i64));
            lemma_floor_sqrt_is(0, 0);
            assert((m + 1) * (m + 1) <= n) by (nonlinear_arith)
                requires
                    0 <= m,
                    m + 1 <= r,
                    r * r <= n,
            ;
        }
    } else {
        assert(!v.exceeds(m));
        assert(r <= m) by (nonlinear_arith)
            requires
                0 <= r,
                0 <= m,
                r * r <= n,
                n <= m * m,
        ;
        assert(n < (m + 1) * (m + 1)) by (nonlinear_arith)
            requires
                0 <= m,
                n <= m * m,
        ;
    }
}

/// A component `x` of a vector of length `r`, divided by `r` over the integers:
/// the sign of `x` where `x` alone is as long as the vector, and 0 where not.
pub open spec fn unit_component(x: i64, r: i64) -> i64 {
    if x == r {
        1i64
    } else if x == -r {
        -1i64
    } else {
        0i64
    }
}

/// Truncating division by a length `r >= 1` of a component no longer than `r`.
proof fn lemma_unit_component(x: i64, r: i64)
    requires
        1 <= r,
        -r <= x <= r,
    ensures
        x.div_req(r),
        x.div_spec(r) == unit_component(x, r),
{
    if x >= 0 {
        assert(x as int / r as int == if x == r { 1int } else { 0int }) by (nonlinear_arith)
            requires
                1 <= r,
                0 <= x <= r,
        ;
    } else {
        assert((-x) as int / r as int == if x == -r { 1int } else { 0int }) by (nonlinear_arith)
            requires
                1 <= r,
                0 < -x <= r,
        ;
    }
}

/// The unit vector of an integer vector holds, for each component, its sign
/// where that component alone is as long as the whole vector, and 0 where it
/// is not. So its magnitude is 1 where some component is that long, and 0 where
/// none is.
pub proof fn lemma_unit_magnitude(v: Vector2<i64>)
    requires
        v.unit_req(),
    ensures
        v.unit_spec() == Vector2(
            unit_component(v.0, v.magnitude_spec()),
            unit_component(v.1, v.magnitude_spec()),
        ),
        v.unit_spec().magnitude_req(),
        v.unit_spec().magnitude_spec() == if vstd::math::abs(v.0 as int) == v.magnitude_spec()
            || vstd::math::abs(v.1 as int) == v.magnitude_spec() {
            1i64
        } else {
            0i64
        },
{
    let n = norm_squared(v);
    let r = floor_sqrt(n);
    lemma_norm_squared(v);
    lemma_floor_sqrt(n);
    lemma_magnitude(v);
    assert(-r <= v.0 <= r) by (nonlinear_arith)
        requires
            0 <= r,
            v.0 * v.0 < (r + 1) * (r + 1),
    ;
    assert(-r <= v.1 <= r) by (nonlinear_arith)
        requires
            0 <= r,
            v.1 * v.1 < (r + 1) * (r + 1),
    ;
    lemma_unit_component(v.0, r as i64);
    lemma_unit_component(v.1, r as i64);
    let u = v.unit_spec();
    assert(u.0 * u.0 == if u.0 == 0 { 0int } else { 1int }) by (nonlinear_arith)
        requires
            -1 <= u.0 <= 1,
    ;
    assert(u.1 * u.1 == if u.1 == 0 { 0int } else { 1int }) by (nonlinear_arith)
        requires
            -1 <= u.1 <= 1,
    ;
    if norm_squared(u) == 0 {
        lemma_floor_sqrt_is(0, 0);
    } else if norm_squared(u) == 1 {
        lemma_floor_sqrt_is(1, 1);
    } else {
        lemma_floor_sqrt_is(2, 1);
    }
}

/// The largest component, and the largest limit, for which `lemma_defined`
/// shows the geometric operations to be defined: `2^31 - 1`.
pub const SMALL: i64 = 0x7fff_ffff;

/// On a vector of which both components lie between `-SMALL` and `SMALL`, the
/// squared length, the magnitude and the clamping to any limit from 0 to `SMALL`
/// are defined, and so is the unit vector unless the vector is zero.
pub proof fn lemma_defined(v: Vector2<i64>, m: i64)
    requires
        -SMALL <= v.0 <= SMALL,
        -SMALL <= v.1 <= SMALL,
        0 <= m <= SMALL,
    ensures
        v.dot_req(v),
        v.magnitude_req(),
        v.limit_req(m),
        v != Vector2(0i64, 0i64) ==> v.unit_req(),
{
    let n = norm_squared(v);
    let r = floor_sqrt(n);
    lemma_norm_squared(v);
    lemma_floor_sqrt(n);
    assert(v.0 * v.0 <= SMALL * SMALL) by (nonlinear_arith)
        requires
            -SMALL <= v.0 <= SMALL,
    ;
    assert(v.1 * v.1 <= SMALL * SMALL) by (nonlinear_arith)
        requires
            -SMALL <= v.1 <= SMALL,
    ;
    assert(m * m <= SMALL * SMALL) by (nonlinear_arith)
        requires
            0 <= m <= SMALL,
    ;
    assert(r <= n) by (nonlinear_arith)
        requires
            0 <= r,
            r * r <= n,
    ;
    assert(r == 0 ==> (r + 1) * (r + 1) == 1) by (nonlinear_arith);
    if n > m * m {
        let d = m as int / r;
        assert(0 <= d <= m) by (nonlinear_arith)
            requires
                d == m as int / r,
                0 <= m,
                1 <= r,
        ;
        assert(-(SMALL * SMALL) <= v.0 * d <= SMALL * SMALL) by (nonlinear_arith)
            requires
                -SMALL <= v.0 <= SMALL,
                0 <= d <= SMALL,
        ;
        assert(-(SMALL * SMALL) <= v.1 * d <= SMALL * SMALL) by (nonlinear_arith)
            requires
                -SMALL <= v.1 <= SMALL,
                0 <= d <= SMALL,
        ;
    }
}

} // verus!
