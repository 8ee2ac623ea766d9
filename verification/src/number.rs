//! Signed fixed-point numbers with ten fractional bits.
//!
//! A `FixedNumber` stores the quantity `raw / 1024` in an `i32`. All physics
//! quantities of the simulation (positions, velocities, distances) use it, so
//! that every frame is computed with exact integer arithmetic.
//!
//! The view of a `FixedNumber` is its raw integer. The contracts below say what
//! each operation does to that integer.

use agb_fixnum::Num;
use vstd::prelude::*;

verus! {

/// Raw value of the number one.
pub const ONE_RAW: i32 = 1024;

/// Largest magnitude of an integer that `FixedNumber::new` represents exactly.
pub const INTEGRAL_LIMIT: i32 = 0x20_0000;

/// Whether the integer `v` can be stored in an `i32`.
pub open spec fn in_i32(v: int) -> bool {
    i32::MIN <= v <= i32::MAX
}

/// Quotient of `a` by `b` rounded towards zero, for `b != 0`.
pub open spec fn trunc_div(a: int, b: int) -> int {
    if a >= 0 {
        a / b
    } else {
        -((-a) / b)
    }
}

/// Division towards zero never increases the magnitude of the dividend.
pub proof fn lemma_trunc_div_bounds(a: int, b: int)
    requires
        b != 0,
    ensures
        a >= 0 ==> 0 <= trunc_div(a, b) <= a || -a <= trunc_div(a, b) <= 0,
        a < 0 ==> a <= trunc_div(a, b) <= 0 || 0 <= trunc_div(a, b) <= -a,
        b > 0 && a >= 0 ==> 0 <= trunc_div(a, b) <= a,
        b > 0 && a < 0 ==> a <= trunc_div(a, b) <= 0,
        a < 0 && b != -1 ==> trunc_div(a, b) < -a,
{
    let m = if a >= 0 { a } else { -a };
    assert(m > 0 && b < -1 ==> -(m / b) < m) by (nonlinear_arith)
        requires
            b != 0,
            m >= 0,
    ;
    assert(0 <= m / b <= m || -m <= m / b <= 0) by (nonlinear_arith)
        requires
            b != 0,
            m >= 0,
    ;
    assert(b > 0 ==> 0 <= m / b <= m) by (nonlinear_arith)
        requires
            b != 0,
            m >= 0,
    ;
}

/// Remainder of the division of `a` by `b` that rounds towards zero, for
/// `b != 0`. It has the sign of `a`.
pub open spec fn trunc_rem(a: int, b: int) -> int {
    if a >= 0 {
        a % b
    } else {
        -((-a) % b)
    }
}

/// Raw value of the product of two fixed-point numbers: the exact product
/// rounded towards negative infinity.
pub open spec fn mul_raw(a: int, b: int) -> int {
    (a * b) / 1024
}

/// Raw value of the quotient of two fixed-point numbers: the exact quotient
/// rounded towards zero.
pub open spec fn div_raw(a: int, b: int) -> int {
    trunc_div(a * 1024, b)
}

/// `c` is the integer square root of `a`: the largest integer whose square
/// does not exceed `a`.
pub open spec fn is_int_sqrt(c: int, a: int) -> bool {
    0 <= c && c * c <= a && a < (c + 1) * (c + 1)
}

/// The integer square root of `a`, for `a >= 0`.
pub open spec fn int_sqrt(a: int) -> int {
    choose|c: int| is_int_sqrt(c, a)
}

/// Raw value of the square root of the fixed-point number with raw value `a`.
/// The root of the raw value is taken first and then scaled, so the result is
/// always a multiple of 32.
pub open spec fn sqrt_raw(a: int) -> int {
    32 * int_sqrt(a)
}

/// Two integer square roots of the same number are equal.
pub proof fn lemma_int_sqrt_unique(c: int, d: int, a: int)
    requires
        is_int_sqrt(c, a),
        is_int_sqrt(d, a),
    ensures
        c == d,
{
    if c < d {
        assert((c + 1) * (c + 1) <= d * d) by (nonlinear_arith)
            requires
                0 <= c,
                c + 1 <= d,
        ;
    } else if d < c {
        assert((d + 1) * (d + 1) <= c * c) by (nonlinear_arith)
            requires
                0 <= d,
                d + 1 <= c,
        ;
    }
}

/// A witness of the integer square root determines `int_sqrt`.
pub proof fn lemma_int_sqrt_is(c: int, a: int)
    requires
        is_int_sqrt(c, a),
    ensures
        int_sqrt(a) == c,
{
    let d = int_sqrt(a);
    lemma_int_sqrt_unique(c, d, a);
}

/// Every number that is not negative has an integer square root.
pub proof fn lemma_int_sqrt_exists(a: int)
    requires
        a >= 0,
    ensures
        is_int_sqrt(int_sqrt(a), a),
    decreases a,
{
    if a == 0 {
        assert(is_int_sqrt(0, 0));
    } else {
        lemma_int_sqrt_exists(a - 1);
        let c = int_sqrt(a - 1);
        if (c + 1) * (c + 1) <= a {
            assert((c + 2) * (c + 2) > (c + 1) * (c + 1)) by (nonlinear_arith)
                requires
                    c >= 0,
            ;
            assert(is_int_sqrt(c + 1, a));
        } else {
            assert(is_int_sqrt(c, a));
        }
    }
}

/// The fixed-point square root is not negative, and its square is at most
/// the number times 1024.
pub proof fn lemma_sqrt_raw_bounds(a: int)
    requires
        a >= 0,
    ensures
        sqrt_raw(a) >= 0,
        sqrt_raw(a) * sqrt_raw(a) <= a * 1024,
        (a + 1) * 1024 <= (sqrt_raw(a) + 32) * (sqrt_raw(a) + 32),
        sqrt_raw(a) == 0 <==> a == 0,
{
    lemma_int_sqrt_exists(a);
    let c = int_sqrt(a);
    assert((32 * c) * (32 * c) == 1024 * (c * c)) by (nonlinear_arith);
    assert((32 * c + 32) * (32 * c + 32) == 1024 * ((c + 1) * (c + 1))) by (nonlinear_arith);
    if a == 0 {
        lemma_int_sqrt_is(0, 0);
    } else if c == 0 {
        assert((c + 1) * (c + 1) == 1);
    }
}

/// Calls `Num<i32, 10> * Num<i32, 10>` of `agb_fixnum`, which computes
/// `(a * b) >> 10` on the raw values with wrapping arithmetic. Where the
/// shifted product fits an `i32` nothing wraps, and the result is that
/// product rounded towards negative infinity.
#[verifier::external_body]
fn num_mul(a: i32, b: i32) -> (r: i32)
    requires
        in_i32(mul_raw(a as int, b as int)),
    ensures
        r == mul_raw(a as int, b as int),
{
    (Num::<i32, 10>::from_raw(a) * Num::<i32, 10>::from_raw(b)).to_raw()
}

/// Calls `Num<i32, 10> / Num<i32, 10>` of `agb_fixnum`, which computes
/// `(a << 10) / b` on the raw values. The divisor must not be zero, and the
/// dividend must be small enough for the shift to lose no bit; the result is
/// then the exact quotient rounded towards zero.
#[verifier::external_body]
fn num_div(a: i32, b: i32) -> (r: i32)
    requires
        b != 0,
        -0x20_0000 < a < 0x20_0000,
    ensures
        r == div_raw(a as int, b as int),
{
    (Num::<i32, 10>::from_raw(a) / Num::<i32, 10>::from_raw(b)).to_raw()
}

/// Calls `Num<i32, 10>::sqrt` of `agb_fixnum`, which panics on a negative
/// number. It computes the integer square root of the raw value digit by
/// digit and shifts it left by five bits.
#[verifier::external_body]
fn num_sqrt(a: i32) -> (r: i32)
    requires
        a >= 0,
    ensures
        r >= 0,
        r % 32 == 0,
        (r / 32) * (r / 32) <= a,
        a < (r / 32 + 1) * (r / 32 + 1),
{
    Num::<i32, 10>::from_raw(a).sqrt().to_raw()
}

/// A fixed-point number with ten fractional bits.
#[derive(Clone, Copy, Debug, PartialEq, Eq, Structural)]
pub struct FixedNumber {
    /// The number multiplied by 1024.
    pub raw: i32,
}

impl View for FixedNumber {
    type V = int;

    open spec fn view(&self) -> int {
        self.raw as int
    }
}

impl FixedNumber {
    /// The fixed-point number with the given raw value.
    pub fn from_raw(raw: i32) -> (r: FixedNumber)
        ensures
            r@ == raw,
    {
        FixedNumber { raw }
    }

    /// The raw value.
    pub fn to_raw(self) -> (r: i32)
        ensures
            r == self@,
    {
        self.raw
    }

    /// The number zero.
    pub fn zero() -> (r: FixedNumber)
        ensures
            r@ == 0,
    {
        FixedNumber { raw: 0 }
    }

    /// The fixed-point number equal to the integer `integral`.
    pub fn new(integral: i32) -> (r: FixedNumber)
        requires
            -INTEGRAL_LIMIT <= integral < INTEGRAL_LIMIT,
        ensures
            r@ == integral * 1024,
    {
        FixedNumber { raw: integral * ONE_RAW }
    }

    /// Sum.
    pub fn add(self, rhs: FixedNumber) -> (r: FixedNumber)
        requires
            in_i32(self@ + rhs@),
        ensures
            r@ == self@ + rhs@,
    {
        FixedNumber { raw: self.raw + rhs.raw }
    }

    /// Difference.
    pub fn sub(self, rhs: FixedNumber) -> (r: FixedNumber)
        requires
            in_i32(self@ - rhs@),
        ensures
            r@ == self@ - rhs@,
    {
        FixedNumber { raw: self.raw - rhs.raw }
    }

    /// Negation.
    pub fn neg(self) -> (r: FixedNumber)
        requires
            self@ != i32::MIN,
        ensures
            r@ == -self@,
    {
        FixedNumber { raw: -self.raw }
    }

    /// Absolute value.
    pub fn abs(self) -> (r: FixedNumber)
        requires
            self@ != i32::MIN,
        ensures
            r@ == if self@ < 0 { -self@ } else { self@ },
    {
        if self.raw < 0 {
            FixedNumber { raw: -self.raw }
        } else {
            self
        }
    }

    /// Product with an integer.
    pub fn mul_int(self, rhs: i32) -> (r: FixedNumber)
        requires
            in_i32(self@ * rhs),
        ensures
            r@ == self@ * rhs,
    {
        FixedNumber { raw: self.raw * rhs }
    }

    /// Quotient by an integer, rounded towards zero.
    pub fn div_int(self, rhs: i32) -> (r: FixedNumber)
        requires
            rhs != 0,
            !(self@ == i32::MIN && rhs == -1),
        ensures
            r@ == trunc_div(self@, rhs as int),
    {
        proof {
            lemma_trunc_div_bounds(self@, rhs as int);
        }
        FixedNumber { raw: self.raw / rhs }
    }

    /// Product of two fixed-point numbers, rounded towards negative infinity.
    pub fn mul(self, rhs: FixedNumber) -> (r: FixedNumber)
        requires
            in_i32(mul_raw(self@, rhs@)),
        ensures
            r@ == mul_raw(self@, rhs@),
    {
        FixedNumber { raw: num_mul(self.raw, rhs.raw) }
    }

    /// Quotient of two fixed-point numbers, rounded towards zero.
    pub fn div(self, rhs: FixedNumber) -> (r: FixedNumber)
        requires
            rhs@ != 0,
            -0x20_0000 < self@ < 0x20_0000,
        ensures
            r@ == div_raw(self@, rhs@),
    {
        FixedNumber { raw: num_div(self.raw, rhs.raw) }
    }

    /// Square root of a non-negative number. The result is never larger than
    /// the exact root.
    pub fn sqrt(self) -> (r: FixedNumber)
        requires
            self@ >= 0,
        ensures
            r@ == sqrt_raw(self@),
            is_int_sqrt(r@ / 32, self@),
            r@ == 32 * (r@ / 32),
            0 <= r@ < 0x16_a0a0,
    {
        let root = num_sqrt(self.raw);
        proof {
            let c = root as int / 32;
            lemma_int_sqrt_is(c, self@);
            assert(c < 46341) by (nonlinear_arith)
                requires
                    0 <= c,
                    c * c <= 0x7fff_ffff,
            ;
        }
        FixedNumber { raw: root }
    }

    /// The largest integer that is not larger than the number.
    pub fn floor(self) -> (r: i32)
        ensures
            r == self@ / 1024,
    {
        let raw = self.raw;
        assert(raw >> 10 == raw / 1024) by (bit_vector);
        raw >> 10
    }

    /// The number limited to the range from `min` to `max`.
    pub fn clamp(self, min: FixedNumber, max: FixedNumber) -> (r: FixedNumber)
        requires
            min@ <= max@,
        ensures
            min@ <= r@ <= max@,
            r@ == if self@ < min@ {
                min@
            } else if self@ > max@ {
                max@
            } else {
                self@
            },
    {
        if self.raw < min.raw {
            min
        } else if self.raw > max.raw {
            max
        } else {
            self
        }
    }
}

} // verus!
