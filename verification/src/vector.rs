//! Two-dimensional vectors of fixed-point numbers.
//!
//! The view of a `Vector2D` is a `Vec2`, its pair of raw integers. The
//! movement and camera rules are stated over `Vec2`, where no arithmetic can
//! overflow.

use crate::number::{
    div_raw, in_i32, lemma_sqrt_raw_bounds, mul_raw, sqrt_raw, trunc_div, FixedNumber,
};
use vstd::prelude::*;

verus! {

/// A pair of raw fixed-point values, as unbounded integers.
pub struct Vec2 {
    pub x: int,
    pub y: int,
}

impl Vec2 {
    /// Both components can be stored in an `i32`.
    pub open spec fn fits(self) -> bool {
        in_i32(self.x) && in_i32(self.y)
    }

    /// The vector of the two whole numbers `x` and `y`.
    pub open spec fn whole(x: int, y: int) -> Vec2 {
        Vec2 { x: x * 1024, y: y * 1024 }
    }

    /// Componentwise sum.
    pub open spec fn plus(self, rhs: Vec2) -> Vec2 {
        Vec2 { x: self.x + rhs.x, y: self.y + rhs.y }
    }

    /// Componentwise difference.
    pub open spec fn minus(self, rhs: Vec2) -> Vec2 {
        Vec2 { x: self.x - rhs.x, y: self.y - rhs.y }
    }

    /// Both components multiplied by the integer `k`.
    pub open spec fn times_int(self, k: int) -> Vec2 {
        Vec2 { x: self.x * k, y: self.y * k }
    }

    /// Both components divided by the integer `k`, rounded towards zero.
    pub open spec fn over_int(self, k: int) -> Vec2 {
        Vec2 { x: trunc_div(self.x, k), y: trunc_div(self.y, k) }
    }

    /// Both components multiplied by the fixed-point number with raw value `k`.
    pub open spec fn times(self, k: int) -> Vec2 {
        Vec2 { x: mul_raw(self.x, k), y: mul_raw(self.y, k) }
    }

    /// Both components divided by the fixed-point number with raw value `k`.
    pub open spec fn over(self, k: int) -> Vec2 {
        Vec2 { x: div_raw(self.x, k), y: div_raw(self.y, k) }
    }

    /// Both components rounded down to whole numbers.
    pub open spec fn floor(self) -> (int, int) {
        (self.x / 1024, self.y / 1024)
    }

    /// Raw value of the squared length.
    pub open spec fn magnitude_squared(self) -> int {
        mul_raw(self.x, self.x) + mul_raw(self.y, self.y)
    }

    /// Raw value of the length: the fixed-point square root of the squared
    /// length.
    pub open spec fn magnitude(self) -> int {
        sqrt_raw(self.magnitude_squared())
    }

    /// The squared length can be computed without overflow.
    pub open spec fn measurable(self) -> bool {
        in_i32(self.magnitude_squared())
    }

    /// The vector divided by its length, and the zero vector where the
    /// length is zero.
    pub open spec fn normalised(self) -> Vec2 {
        if self.magnitude() == 0 {
            Vec2 { x: 0, y: 0 }
        } else {
            self.over(self.magnitude())
        }
    }

    /// The components are small enough to be divided by a fixed-point
    /// number.
    pub open spec fn divisible(self) -> bool {
        -0x20_0000 < self.x < 0x20_0000 && -0x20_0000 < self.y < 0x20_0000
    }
}

/// A two-dimensional vector of fixed-point numbers.
#[derive(Clone, Copy, Debug, PartialEq, Eq, Structural)]
pub struct Vector2D {
    pub x: FixedNumber,
    pub y: FixedNumber,
}

impl View for Vector2D {
    type V = Vec2;

    open spec fn view(&self) -> Vec2 {
        Vec2 { x: self.x@, y: self.y@ }
    }
}

impl Vector2D {
    /// The vector with the raw components of `v`, which must fit.
    pub open spec fn of(v: Vec2) -> Vector2D {
        Vector2D { x: FixedNumber { raw: v.x as i32 }, y: FixedNumber { raw: v.y as i32 } }
    }

    /// The view determines the vector.
    pub proof fn lemma_view_of(p: Vector2D)
        ensures
            Vector2D::of(p@) == p,
    {
    }

    /// The vector with the given components.
    pub fn new(x: FixedNumber, y: FixedNumber) -> (r: Vector2D)
        ensures
            r.x == x,
            r.y == y,
    {
        Vector2D { x, y }
    }

    /// The zero vector.
    pub fn zero() -> (r: Vector2D)
        ensures
            r@ == (Vec2 { x: 0, y: 0 }),
    {
        Vector2D { x: FixedNumber::zero(), y: FixedNumber::zero() }
    }

    /// The vector of the two whole numbers `x` and `y`.
    pub fn from_ints(x: i32, y: i32) -> (r: Vector2D)
        requires
            -0x20_0000 <= x < 0x20_0000,
            -0x20_0000 <= y < 0x20_0000,
        ensures
            r@ == Vec2::whole(x as int, y as int),
    {
        Vector2D { x: FixedNumber::new(x), y: FixedNumber::new(y) }
    }

    /// Componentwise sum.
    pub fn add(self, rhs: Vector2D) -> (r: Vector2D)
        requires
            self@.plus(rhs@).fits(),
        ensures
            r@ == self@.plus(rhs@),
    {
        Vector2D { x: self.x.add(rhs.x), y: self.y.add(rhs.y) }
    }

    /// Componentwise difference.
    pub fn sub(self, rhs: Vector2D) -> (r: Vector2D)
        requires
            self@.minus(rhs@).fits(),
        ensures
            r@ == self@.minus(rhs@),
    {
        Vector2D { x: self.x.sub(rhs.x), y: self.y.sub(rhs.y) }
    }

    /// Both components multiplied by an integer.
    pub fn mul_int(self, rhs: i32) -> (r: Vector2D)
        requires
            self@.times_int(rhs as int).fits(),
        ensures
            r@ == self@.times_int(rhs as int),
    {
        Vector2D { x: self.x.mul_int(rhs), y: self.y.mul_int(rhs) }
    }

    /// Both components divided by an integer, rounded towards zero.
    pub fn div_int(self, rhs: i32) -> (r: Vector2D)
        requires
            rhs != 0,
            !(self@.x == i32::MIN && rhs == -1),
            !(self@.y == i32::MIN && rhs == -1),
        ensures
            r@ == self@.over_int(rhs as int),
    {
        Vector2D { x: self.x.div_int(rhs), y: self.y.div_int(rhs) }
    }

    /// Both components multiplied by a fixed-point number.
    pub fn mul(self, rhs: FixedNumber) -> (r: Vector2D)
        requires
            self@.times(rhs@).fits(),
        ensures
            r@ == self@.times(rhs@),
    {
        Vector2D { x: self.x.mul(rhs), y: self.y.mul(rhs) }
    }

    /// Both components divided by a fixed-point number.
    pub fn div(self, rhs: FixedNumber) -> (r: Vector2D)
        requires
            rhs@ != 0,
            self@.divisible(),
        ensures
            r@ == self@.over(rhs@),
    {
        Vector2D { x: self.x.div(rhs), y: self.y.div(rhs) }
    }

    /// Both components rounded down to whole numbers.
    pub fn floor(self) -> (r: (i32, i32))
        ensures
            (r.0 as int, r.1 as int) == self@.floor(),
    {
        (self.x.floor(), self.y.floor())
    }

    /// The squared length.
    pub fn magnitude_squared(self) -> (r: FixedNumber)
        requires
            self@.measurable(),
        ensures
            r@ == self@.magnitude_squared(),
            r@ >= 0,
    {
        proof {
            lemma_square_bounds(self.x@);
            lemma_square_bounds(self.y@);
        }
        self.x.mul(self.x).add(self.y.mul(self.y))
    }

    /// The length, rounded down to a multiple of 1/32.
    pub fn magnitude(self) -> (r: FixedNumber)
        requires
            self@.measurable(),
        ensures
            r@ == self@.magnitude(),
            0 <= r@ < 0x16_a0a0,
    {
        self.magnitude_squared().sqrt()
    }

    /// The vector divided by its length. A vector whose length is zero is
    /// mapped to the zero vector.
    pub fn normalise(self) -> (r: Vector2D)
        requires
            self@.measurable(),
            self@.divisible(),
        ensures
            r@ == self@.normalised(),
    {
        let length = self.magnitude();
        if length.raw == 0 {
            Vector2D::zero()
        } else {
            self.div(length)
        }
    }
}

/// The raw square of a fixed-point number is not negative.
pub proof fn lemma_square_bounds(a: int)
    ensures
        mul_raw(a, a) >= 0,
{
    assert(a * a >= 0) by (nonlinear_arith);
}

/// The raw square of a fixed-point number grows with its magnitude.
pub proof fn lemma_square_at_most(a: int, b: int)
    requires
        -b <= a <= b,
    ensures
        0 <= mul_raw(a, a) <= mul_raw(b, b),
        a * a <= b * b,
{
    assert(0 <= a * a <= b * b) by (nonlinear_arith)
        requires
            -b <= a <= b,
    ;
}

/// The length of a vector whose components are below 1024 pixels can be
/// measured.
pub proof fn lemma_small_is_measurable(v: Vec2)
    requires
        -0x10_0000 < v.x < 0x10_0000,
        -0x10_0000 < v.y < 0x10_0000,
    ensures
        v.measurable(),
        v.divisible(),
        v.fits(),
        0 <= v.magnitude_squared(),
{
    lemma_square_at_most(v.x, 0xf_ffff);
    lemma_square_at_most(v.y, 0xf_ffff);
}

/// The length of a vector is at most twice its larger component.
pub proof fn lemma_magnitude_at_most(v: Vec2, b: int)
    requires
        -b <= v.x <= b,
        -b <= v.y <= b,
    ensures
        0 <= v.magnitude() <= 2 * b,
{
    lemma_square_at_most(v.x, b);
    lemma_square_at_most(v.y, b);
    let m = v.magnitude_squared();
    lemma_sqrt_raw_bounds(m);
    let r = sqrt_raw(m);
    assert(r <= 2 * b) by (nonlinear_arith)
        requires
            r >= 0,
            b >= 0,
            r * r <= 2 * (b * b),
    ;
}

/// Each component of a vector is smaller than its length plus 1/32. So a
/// vector divided by its length has components below two.
pub proof fn lemma_direction_is_short(v: Vec2)
    requires
        v.magnitude() != 0,
    ensures
        v.magnitude() >= 32,
        -v.magnitude() - 32 < v.x < v.magnitude() + 32,
        -v.magnitude() - 32 < v.y < v.magnitude() + 32,
        -2048 < v.over(v.magnitude()).x < 2048,
        -2048 < v.over(v.magnitude()).y < 2048,
        v.normalised() == v.over(v.magnitude()),
{
    lemma_square_bounds(v.x);
    lemma_square_bounds(v.y);
    let m = v.magnitude_squared();
    lemma_sqrt_raw_bounds(m);
    let r = sqrt_raw(m);
    crate::number::lemma_int_sqrt_exists(m);
    lemma_component_below(v.x, m, r);
    lemma_component_below(v.y, m, r);
    lemma_quotient_below_two(v.x, r);
    lemma_quotient_below_two(v.y, r);
}

/// A number whose raw square is at most `m` is smaller than the square root
/// of `m` plus 1/32.
proof fn lemma_component_below(a: int, m: int, r: int)
    requires
        0 <= mul_raw(a, a) <= m,
        r >= 0,
        (m + 1) * 1024 <= (r + 32) * (r + 32),
    ensures
        -r - 32 < a < r + 32,
{
    assert(-r - 32 < a < r + 32) by (nonlinear_arith)
        requires
            r >= 0,
            a * a < (r + 32) * (r + 32),
    ;
}

/// The quotient of a number by a length of at least 1/32 that is not much
/// smaller than the number is below two.
proof fn lemma_quotient_below_two(a: int, r: int)
    requires
        r >= 32,
        -r - 32 < a < r + 32,
    ensures
        -2048 < div_raw(a, r) < 2048,
{
    let n = if a >= 0 { a * 1024 } else { -(a * 1024) };
    assert(0 <= n / r < 2048) by (nonlinear_arith)
        requires
            0 <= n < 2048 * r,
            r > 0,
    ;
}

} // verus!
