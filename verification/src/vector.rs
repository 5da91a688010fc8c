//! Fixed-point planar vectors, the distance test for circles, and the speed
//! limit.

use vstd::arithmetic::div_mod::{
    lemma_div_is_ordered,
    lemma_div_multiples_vanish,
    lemma_fundamental_div_mod,
    lemma_mod_bound,
};
use vstd::arithmetic::mul::lemma_mul_inequality_converse;
use vstd::prelude::*;

verus! {

/// Fixed-point steps in one world unit: a coordinate of `1000` is one unit.
pub const UNIT: i32 = 1000;

/// A point or a displacement in the plane, in fixed-point steps.
#[derive(Clone, Copy, Debug, PartialEq, Eq, Structural)]
pub struct Vec2 {
    pub x: i32,
    pub y: i32,
}

/// The value of `c` held inside the range of a coordinate.
pub open spec fn held(c: int) -> int {
    if c < i32::MIN {
        i32::MIN as int
    } else if c > i32::MAX {
        i32::MAX as int
    } else {
        c
    }
}

/// The absolute value of `c`.
pub open spec fn magnitude(c: int) -> nat {
    if c < 0 {
        (-c) as nat
    } else {
        c as nat
    }
}

/// Adds a displacement to a coordinate; a sum beyond the coordinate range
/// stops at the end of the range.
pub fn advance_axis(p: i32, v: i32) -> (r: i32)
    ensures
        r == held(p + v),
{
    let sum: i64 = p as i64 + v as i64;
    if sum < i32::MIN as i64 {
        i32::MIN
    } else if sum > i32::MAX as i64 {
        i32::MAX
    } else {
        sum as i32
    }
}

/// The distance between two coordinates.
pub fn axis_gap(a: i32, b: i32) -> (gap: u64)
    ensures
        gap == magnitude(a - b),
        gap <= u32::MAX,
{
    let diff: i64 = a as i64 - b as i64;
    if diff < 0 {
        (-diff) as u64
    } else {
        diff as u64
    }
}

/// Whether `root` is the least whole number whose square is at least `n`.
pub open spec fn is_ceil_sqrt(root: nat, n: nat) -> bool {
    &&& root * root >= n
    &&& root > 0 ==> (root - 1) * (root - 1) < n
}

/// The square root of `n`, rounded up to a whole number.
pub open spec fn ceil_sqrt(n: nat) -> nat {
    choose|root: nat| is_ceil_sqrt(root, n)
}

/// `c * numerator / denominator`, rounded toward zero.
pub open spec fn scaled(c: int, numerator: nat, denominator: nat) -> int {
    if c >= 0 {
        (c * numerator) / (denominator as int)
    } else {
        -(((-c) * numerator) / (denominator as int))
    }
}

/// No number has two rounded-up square roots.
pub proof fn lemma_ceil_sqrt_unique(a: nat, b: nat, n: nat)
    requires
        is_ceil_sqrt(a, n),
        is_ceil_sqrt(b, n),
    ensures
        a == b,
{
    if a < b {
        assert(a * a <= (b - 1) * (b - 1)) by (nonlinear_arith)
            requires
                0 <= a <= b - 1,
        ;
    } else if b < a {
        assert(b * b <= (a - 1) * (a - 1)) by (nonlinear_arith)
            requires
                0 <= b <= a - 1,
        ;
    }
}

/// Every number has a rounded-up square root, and `ceil_sqrt` is it.
pub proof fn lemma_ceil_sqrt_exists(n: nat)
    ensures
        is_ceil_sqrt(ceil_sqrt(n), n),
    decreases n,
{
    if n == 0 {
        assert(is_ceil_sqrt(0, 0));
    } else {
        lemma_ceil_sqrt_exists((n - 1) as nat);
        let r = ceil_sqrt((n - 1) as nat);
        if r * r >= n {
            assert(is_ceil_sqrt(r, n));
        } else {
            assert((r + 1) * (r + 1) == r * r + 2 * r + 1) by (nonlinear_arith);
            assert((r + 1 - 1) * (r + 1 - 1) == r * r);
            assert(is_ceil_sqrt(r + 1, n));
        }
    }
}

/// Scaling down by a ratio of at most one never lengthens a component.
pub proof fn lemma_scaled_shrinks(c: int, numerator: nat, denominator: nat)
    requires
        numerator <= denominator,
        denominator > 0,
    ensures
        magnitude(scaled(c, numerator, denominator)) <= magnitude(c),
        c >= 0 ==> scaled(c, numerator, denominator) >= 0,
        c <= 0 ==> scaled(c, numerator, denominator) <= 0,
{
    let m = magnitude(c) as int;
    let d = denominator as int;
    assert(0 <= m * numerator <= m * d) by (nonlinear_arith)
        requires
            0 <= m,
            0 <= numerator <= d,
    ;
    lemma_div_is_ordered(m * numerator, m * d, d);
    lemma_div_is_ordered(0, m * numerator, d);
    assert(m * d == d * m) by (nonlinear_arith);
    lemma_div_multiples_vanish(m, d);
}

/// The square root of `n`, rounded up, found by bisection.
pub fn ceil_sqrt_of(n: u64) -> (root: u64)
    ensures
        root == ceil_sqrt(n as nat),
        is_ceil_sqrt(root as nat, n as nat),
        root <= 0x1_0000_0000,
{
    let mut low: u64 = 0;
    let mut high: u64 = 0x1_0000_0000;
    while low < high
        invariant
            low <= high <= 0x1_0000_0000,
            high * high >= n,
            low > 0 ==> (low - 1) * (low - 1) < n,
        decreases high - low,
    {
        let middle: u64 = low + (high - low) / 2;
        assert(middle * middle <= 0xffff_ffff * 0xffff_ffff) by (nonlinear_arith)
            requires
                0 <= middle <= 0xffff_ffff,
        ;
        if middle * middle >= n {
            high = middle;
        } else {
            low = middle + 1;
        }
    }
    proof {
        lemma_ceil_sqrt_exists(n as nat);
        lemma_ceil_sqrt_unique(low as nat, ceil_sqrt(n as nat), n as nat);
    }
    low
}

/// Computes `c * numerator / denominator`, rounded toward zero.
pub fn scale(c: i32, numerator: u32, denominator: u64) -> (r: i64)
    requires
        denominator > 0,
    ensures
        r == scaled(c as int, numerator as nat, denominator as nat),
{
    let size: u64 = axis_gap(c, 0);
    assert(size * numerator <= 0x8000_0000 * 0xffff_ffff) by (nonlinear_arith)
        requires
            0 <= size <= 0x8000_0000,
            0 <= numerator <= 0xffff_ffff,
    ;
    let product: u64 = size * (numerator as u64);
    let quotient: u64 = product / denominator;
    proof {
        lemma_div_is_ordered(0, product as int, denominator as int);
        lemma_div_is_ordered_by_one(product as int, denominator as int);
    }
    if c >= 0 {
        quotient as i64
    } else {
        -(quotient as i64)
    }
}

/// Dividing a natural number by a positive one does not make it larger.
proof fn lemma_div_is_ordered_by_one(x: int, d: int)
    requires
        0 <= x,
        0 < d,
    ensures
        x / d <= x,
{
    vstd::arithmetic::div_mod::lemma_div_is_ordered_by_denominator(x, 1, d);
}

impl Vec2 {
    /// The vector with both components zero.
    pub open spec fn spec_zero() -> Vec2 {
        Vec2 { x: 0, y: 0 }
    }

    /// The sum of two vectors, each component held inside the coordinate range.
    pub open spec fn plus(self, v: Vec2) -> Vec2 {
        Vec2 { x: held(self.x + v.x) as i32, y: held(self.y + v.y) as i32 }
    }

    /// The square of the vector's length.
    pub open spec fn length_squared(self) -> int {
        self.x * self.x + self.y * self.y
    }

    /// The square of the distance between two points.
    pub open spec fn distance_squared(self, other: Vec2) -> int {
        (self.x - other.x) * (self.x - other.x) + (self.y - other.y) * (self.y - other.y)
    }

    pub fn new(x: i32, y: i32) -> (v: Vec2)
        ensures
            v == (Vec2 { x, y }),
    {
        Vec2 { x, y }
    }

    pub fn zero() -> (v: Vec2)
        ensures
            v == Vec2::spec_zero(),
    {
        Vec2 { x: 0, y: 0 }
    }

    /// The vector cut down to a length of at most `limit`: one that is longer
    /// keeps its direction and is scaled by `limit` over its own length, the
    /// length rounded up and each component rounded toward zero.
    pub open spec fn capped(self, limit: u32) -> Vec2 {
        if self.length_squared() <= limit * limit {
            self
        } else {
            let length = ceil_sqrt(self.length_squared() as nat);
            Vec2 {
                x: scaled(self.x as int, limit as nat, length) as i32,
                y: scaled(self.y as int, limit as nat, length) as i32,
            }
        }
    }

    /// The square of the vector's length.
    pub fn length_squared_of(self) -> (d: u64)
        ensures
            d == self.length_squared(),
    {
        let x: u64 = axis_gap(self.x, 0);
        let y: u64 = axis_gap(self.y, 0);
        assert(x * x <= 0x8000_0000 * 0x8000_0000) by (nonlinear_arith)
            requires
                x <= 0x8000_0000,
        ;
        assert(y * y <= 0x8000_0000 * 0x8000_0000) by (nonlinear_arith)
            requires
                y <= 0x8000_0000,
        ;
        assert(x * x == self.x * self.x) by (nonlinear_arith)
            requires
                x == magnitude(self.x as int),
        ;
        assert(y * y == self.y * self.y) by (nonlinear_arith)
            requires
                y == magnitude(self.y as int),
        ;
        x * x + y * y
    }

    /// Cuts the vector down to a length of at most `limit`.
    pub fn cap_length(self, limit: u32) -> (r: Vec2)
        ensures
            r == self.capped(limit),
            r.length_squared() <= limit * limit,
    {
        proof {
            self.lemma_capped_within_limit(limit);
        }
        let own: u64 = self.length_squared_of();
        assert(limit * limit <= 0xffff_ffff * 0xffff_ffff) by (nonlinear_arith)
            requires
                0 <= limit <= 0xffff_ffff,
        ;
        let most: u64 = (limit as u64) * (limit as u64);
        if own <= most {
            self
        } else {
            let length: u64 = ceil_sqrt_of(own);
            proof {
                lemma_longer_than_limit(own as nat, limit as nat, length as nat);
                lemma_scaled_shrinks(self.x as int, limit as nat, length as nat);
                lemma_scaled_shrinks(self.y as int, limit as nat, length as nat);
            }
            let x: i64 = scale(self.x, limit, length);
            let y: i64 = scale(self.y, limit, length);
            Vec2 { x: x as i32, y: y as i32 }
        }
    }

    /// A capped vector is never longer than the limit.
    pub proof fn lemma_capped_within_limit(self, limit: u32)
        ensures
            self.capped(limit).length_squared() <= limit * limit,
    {
        if self.length_squared() > limit * limit {
            let n = self.length_squared() as nat;
            let length = ceil_sqrt(n);
            lemma_ceil_sqrt_exists(n);
            lemma_longer_than_limit(n, limit as nat, length);
            lemma_scaled_shrinks(self.x as int, limit as nat, length);
            lemma_scaled_shrinks(self.y as int, limit as nat, length);
            let a = scaled(self.x as int, limit as nat, length);
            let b = scaled(self.y as int, limit as nat, length);
            lemma_scaled_square(self.x as int, limit as nat, length);
            lemma_scaled_square(self.y as int, limit as nat, length);
            let l = length as int;
            let m = limit as int;
            assert((a * a + b * b) * (l * l) <= (m * m) * (l * l)) by (nonlinear_arith)
                requires
                    a * a * (l * l) <= self.x * self.x * (m * m),
                    b * b * (l * l) <= self.y * self.y * (m * m),
                    self.x * self.x + self.y * self.y <= l * l,
                    0 <= m * m,
            ;
            assert(l * l > 0) by (nonlinear_arith)
                requires
                    l > 0,
            ;
            lemma_mul_inequality_converse(a * a + b * b, m * m, l * l);
        }
    }

    /// Moves a point by a displacement.
    pub fn advance(self, v: Vec2) -> (r: Vec2)
        ensures
            r == self.plus(v),
    {
        Vec2 { x: advance_axis(self.x, v.x), y: advance_axis(self.y, v.y) }
    }

    /// The square of the distance between `self` and `other`.
    pub fn distance_squared_to(self, other: Vec2) -> (d: u128)
        ensures
            d == self.distance_squared(other),
    {
        let dx: u128 = axis_gap(self.x, other.x) as u128;
        let dy: u128 = axis_gap(self.y, other.y) as u128;
        assert(dx * dx <= 0xffff_ffff * 0xffff_ffff) by (nonlinear_arith)
            requires
                dx <= 0xffff_ffff,
        ;
        assert(dy * dy <= 0xffff_ffff * 0xffff_ffff) by (nonlinear_arith)
            requires
                dy <= 0xffff_ffff,
        ;
        assert(dx * dx == (self.x - other.x) * (self.x - other.x)) by (nonlinear_arith)
            requires
                dx == magnitude(self.x - other.x),
        ;
        assert(dy * dy == (self.y - other.y) * (self.y - other.y)) by (nonlinear_arith)
            requires
                dy == magnitude(self.y - other.y),
        ;
        dx * dx + dy * dy
    }
}

/// A vector longer than the limit has a rounded-up length above the limit.
proof fn lemma_longer_than_limit(n: nat, limit: nat, length: nat)
    requires
        n > limit * limit,
        is_ceil_sqrt(length, n),
    ensures
        length > limit,
{
    if length <= limit {
        assert(length * length <= limit * limit) by (nonlinear_arith)
            requires
                0 <= length <= limit,
        ;
    }
}

/// The square of a scaled component, times the square of the denominator, is
/// at most the square of the component times the square of the numerator.
proof fn lemma_scaled_square(c: int, numerator: nat, denominator: nat)
    requires
        denominator > 0,
    ensures
        scaled(c, numerator, denominator) * scaled(c, numerator, denominator) * (denominator
            * denominator) <= c * c * (numerator * numerator),
{
    let m = magnitude(c) as int;
    let d = denominator as int;
    let k = numerator as int;
    let q = (m * k) / d;
    assert(0 <= m * k) by (nonlinear_arith)
        requires
            0 <= m,
            0 <= k,
    ;
    lemma_fundamental_div_mod(m * k, d);
    lemma_mod_bound(m * k, d);
    lemma_div_is_ordered(0, m * k, d);
    assert(0 <= q * d <= m * k) by (nonlinear_arith)
        requires
            m * k == d * q + (m * k) % d,
            0 <= (m * k) % d,
            0 <= q,
            0 < d,
    ;
    assert(q * q * (d * d) <= m * m * (k * k)) by (nonlinear_arith)
        requires
            0 <= q * d <= m * k,
    ;
    let s = scaled(c, numerator, denominator);
    assert(s == q || s == -q);
    assert(s * s == q * q) by (nonlinear_arith)
        requires
            s == q || s == -q,
    ;
    assert(m * m == c * c) by (nonlinear_arith)
        requires
            m == c || m == -c,
    ;
}

/// Whether two circles overlap: the centres are closer than the sum of the
/// radii. Circles that only touch do not overlap.
pub open spec fn overlapping(a: Vec2, radius_a: u32, b: Vec2, radius_b: u32) -> bool {
    a.distance_squared(b) < (radius_a + radius_b) * (radius_a + radius_b)
}

/// Tests two circles for overlap by comparing squares, without a square root.
pub fn circles_overlap(a: Vec2, radius_a: u32, b: Vec2, radius_b: u32) -> (hit: bool)
    ensures
        hit == overlapping(a, radius_a, b, radius_b),
{
    let reach: u128 = radius_a as u128 + radius_b as u128;
    assert(reach * reach <= 0x1_ffff_fffe * 0x1_ffff_fffe) by (nonlinear_arith)
        requires
            reach <= 0x1_ffff_fffe,
    ;
    a.distance_squared_to(b) < reach * reach
}

} // verus!
