//! Fixed-point 3-vectors and the integer arithmetic the controller needs.
//!
//! A `Vec3Milli` holds a position, velocity or direction with each component
//! in milli-units (one thousandth of a world unit). Division here always
//! rounds toward zero, so the truncating quotient is defined once as a spec
//! function and every contract speaks of it.

use vstd::prelude::*;
use vstd::arithmetic::div_mod::{lemma_remainder_lower, lemma_div_pos_is_pos};

verus! {

/// Largest component magnitude the controller ever works with:
/// one million world units, far beyond any reachable speed or position.
pub const COORD_LIMIT: i64 = 1_000_000_000;

/// A 3-vector with components in milli-units (1000 = one world unit).
#[derive(Clone, Copy, Debug, PartialEq, Eq, Structural)]
pub struct Vec3Milli {
    pub x: i64,
    pub y: i64,
    pub z: i64,
}

/// The square of an integer.
pub open spec fn sq(x: int) -> int {
    x * x
}

/// Squared Euclidean length of a vector, in milli-units squared.
pub open spec fn len_sq(v: Vec3Milli) -> int {
    sq(v.x as int) + sq(v.y as int) + sq(v.z as int)
}

/// Quotient rounded toward zero, for a positive divisor.
pub open spec fn div_trunc(a: int, d: int) -> int
    recommends
        d > 0,
{
    if a >= 0 {
        a / d
    } else {
        -((-a) / d)
    }
}

/// All components within `bound` in magnitude.
pub open spec fn in_bounds(v: Vec3Milli, bound: int) -> bool {
    -bound <= v.x <= bound && -bound <= v.y <= bound && -bound <= v.z <= bound
}

impl Vec3Milli {
    /// The zero vector.
    pub fn zero() -> (r: Vec3Milli)
        ensures
            r == (Vec3Milli { x: 0, y: 0, z: 0 }),
    {
        Vec3Milli { x: 0, y: 0, z: 0 }
    }

    /// Componentwise sum.
    pub fn plus(self, other: Vec3Milli) -> (r: Vec3Milli)
        requires
            in_bounds(self, COORD_LIMIT as int),
            in_bounds(other, COORD_LIMIT as int),
        ensures
            r.x == self.x + other.x,
            r.y == self.y + other.y,
            r.z == self.z + other.z,
    {
        Vec3Milli { x: self.x + other.x, y: self.y + other.y, z: self.z + other.z }
    }

    /// Componentwise difference.
    pub fn minus(self, other: Vec3Milli) -> (r: Vec3Milli)
        requires
            in_bounds(self, COORD_LIMIT as int),
            in_bounds(other, COORD_LIMIT as int),
        ensures
            r.x == self.x - other.x,
            r.y == self.y - other.y,
            r.z == self.z - other.z,
    {
        Vec3Milli { x: self.x - other.x, y: self.y - other.y, z: self.z - other.z }
    }

    /// Componentwise scaling by an integer factor.
    pub fn scaled(self, k: i64) -> (r: Vec3Milli)
        requires
            in_bounds(self, COORD_LIMIT as int),
            -1000 <= k <= 1000,
        ensures
            r.x == self.x * k,
            r.y == self.y * k,
            r.z == self.z * k,
    {
        proof {
            assert(-1000 * (COORD_LIMIT as int) <= self.x * k <= 1000 * (COORD_LIMIT as int))
                by (nonlinear_arith)
                requires
                    -(COORD_LIMIT as int) <= self.x <= COORD_LIMIT as int,
                    -1000 <= k <= 1000,
            ;
            assert(-1000 * (COORD_LIMIT as int) <= self.y * k <= 1000 * (COORD_LIMIT as int))
                by (nonlinear_arith)
                requires
                    -(COORD_LIMIT as int) <= self.y <= COORD_LIMIT as int,
                    -1000 <= k <= 1000,
            ;
            assert(-1000 * (COORD_LIMIT as int) <= self.z * k <= 1000 * (COORD_LIMIT as int))
                by (nonlinear_arith)
                requires
                    -(COORD_LIMIT as int) <= self.z <= COORD_LIMIT as int,
                    -1000 <= k <= 1000,
            ;
        }
        Vec3Milli { x: self.x * k, y: self.y * k, z: self.z * k }
    }

    /// Squared length, exact.
    pub fn length_squared(self) -> (r: i64)
        requires
            in_bounds(self, 1_500_000_000int),
        ensures
            r == len_sq(self),
            r >= 0,
    {
        proof {
            lemma_sq_bound(self.x as int, 1_500_000_000int);
            lemma_sq_bound(self.y as int, 1_500_000_000int);
            lemma_sq_bound(self.z as int, 1_500_000_000int);
        }
        self.x * self.x + self.y * self.y + self.z * self.z
    }
}

/// For `|x| <= b`, `0 <= x*x <= b*b`.
pub proof fn lemma_sq_bound(x: int, b: int)
    by (nonlinear_arith)
    requires
        -b <= x <= b,
    ensures
        0 <= sq(x) <= sq(b),
{
}

/// The floor square root as a mathematical function: it steps up by one
/// exactly where the next perfect square begins.
pub open spec fn sqrt_floor(n: int) -> int
    decreases n,
{
    if n <= 0 {
        0
    } else if sq(sqrt_floor(n - 1) + 1) <= n {
        sqrt_floor(n - 1) + 1
    } else {
        sqrt_floor(n - 1)
    }
}

/// The ceiling square root: equal to the floor root on perfect squares, one
/// above it elsewhere.
pub open spec fn sqrt_ceil(n: int) -> int {
    if sq(sqrt_floor(n)) == n {
        sqrt_floor(n)
    } else {
        sqrt_floor(n) + 1
    }
}

/// `sqrt_floor(n)` is the unique nonnegative root with
/// `r*r <= n < (r+1)*(r+1)`.
pub proof fn lemma_sqrt_floor_props(n: int)
    requires
        n >= 0,
    ensures
        sqrt_floor(n) >= 0,
        sq(sqrt_floor(n)) <= n < sq(sqrt_floor(n) + 1),
    decreases n,
{
    if n > 0 {
        lemma_sqrt_floor_props(n - 1);
        let p = sqrt_floor(n - 1);
        if sq(p + 1) <= n {
            assert(sq(p + 1) < sq(p + 2)) by (nonlinear_arith)
                requires
                    p >= 0,
            ;
        }
    }
}

/// Any nonnegative `r` with `r*r <= n < (r+1)*(r+1)` is `sqrt_floor(n)`.
pub proof fn lemma_sqrt_floor_unique(n: int, r: int)
    requires
        n >= 0,
        r >= 0,
        sq(r) <= n < sq(r + 1),
    ensures
        r == sqrt_floor(n),
{
    lemma_sqrt_floor_props(n);
    let s = sqrt_floor(n);
    if r < s {
        assert(sq(r + 1) <= sq(s)) by (nonlinear_arith)
            requires
                0 <= r + 1 <= s,
        ;
    }
    if s < r {
        assert(sq(s + 1) <= sq(r)) by (nonlinear_arith)
            requires
                0 <= s + 1 <= r,
        ;
    }
}

/// One component of a vector scaled down by at least the vector's length:
/// the scaled square times the divisor's square stays within the original
/// square times the factor's square.
proof fn lemma_div_scaled_sq(d: int, m: int, len: int)
    requires
        len >= 1,
        m >= 0,
    ensures
        sq(div_trunc(d * m, len)) * sq(len) <= sq(d) * sq(m),
{
    let a = d * m;
    let t = div_trunc(a, len);
    if d >= 0 {
        assert(a >= 0) by (nonlinear_arith)
            requires
                d >= 0,
                m >= 0,
                a == d * m,
        ;
        lemma_div_pos_is_pos(a, len);
        lemma_remainder_lower(a, len);
        assert(0 <= t && t * len <= a);
        assert(sq(t) * sq(len) <= sq(a)) by (nonlinear_arith)
            requires
                0 <= t,
                0 < len,
                t * len <= a,
        ;
        assert(sq(a) == sq(d) * sq(m)) by (nonlinear_arith)
            requires
                a == d * m,
        ;
    } else {
        let b = -a;
        assert(b >= 0) by (nonlinear_arith)
            requires
                d < 0,
                m >= 0,
                b == -(d * m),
        ;
        lemma_div_pos_is_pos(b, len);
        lemma_remainder_lower(b, len);
        let u = b / len;
        assert(0 <= u && u * len <= b);
        assert(sq(u) * sq(len) <= sq(b)) by (nonlinear_arith)
            requires
                0 <= u,
                0 < len,
                u * len <= b,
        ;
        assert(t == -u);
        assert(sq(t) == sq(u)) by (nonlinear_arith)
            requires
                t == -u,
        ;
        assert(sq(b) == sq(d) * sq(m)) by (nonlinear_arith)
            requires
                b == -(d * m),
        ;
    }
}

/// Scaling a vector componentwise by `m / len`, with `len` at least the
/// vector's length, yields a vector no longer than `m`: the heart of the
/// acceleration cap.
pub proof fn lemma_scale_within(d1: int, d2: int, d3: int, m: int, len: int)
    requires
        len >= 1,
        m >= 0,
        sq(d1) + sq(d2) + sq(d3) <= sq(len),
    ensures
        sq(div_trunc(d1 * m, len)) + sq(div_trunc(d2 * m, len)) + sq(div_trunc(d3 * m, len)) <= sq(
            m,
        ),
{
    lemma_div_scaled_sq(d1, m, len);
    lemma_div_scaled_sq(d2, m, len);
    lemma_div_scaled_sq(d3, m, len);
    let t1 = div_trunc(d1 * m, len);
    let t2 = div_trunc(d2 * m, len);
    let t3 = div_trunc(d3 * m, len);
    assert(sq(t1) + sq(t2) + sq(t3) <= sq(m)) by (nonlinear_arith)
        requires
            sq(t1) * sq(len) <= sq(d1) * sq(m),
            sq(t2) * sq(len) <= sq(d2) * sq(m),
            sq(t3) * sq(len) <= sq(d3) * sq(m),
            sq(d1) + sq(d2) + sq(d3) <= sq(len),
            len >= 1,
    ;
}

/// Truncating division of `a` by a positive divisor `d`, exact to `div_trunc`.
pub fn div_toward_zero(a: i64, d: i64) -> (r: i64)
    requires
        d > 0,
        a > i64::MIN,
    ensures
        r == div_trunc(a as int, d as int),
        a >= 0 ==> 0 <= r <= a,
        a < 0 ==> a <= r <= 0,
{
    if a >= 0 {
        a / d
    } else {
        -((-a) / d)
    }
}

/// Floor of the square root: `r*r <= n < (r+1)*(r+1)`.
pub fn isqrt(n: u64) -> (r: u64)
    ensures
        sq(r as int) <= n as int,
        (n as int) < sq(r as int + 1),
        r <= 0xFFFF_FFFFu64,
        r == sqrt_floor(n as int),
{
    let mut lo: u64 = 0;
    let mut hi: u64 = 0xFFFF_FFFF;
    while lo < hi
        invariant
            lo <= hi <= 0xFFFF_FFFF,
            sq(lo as int) <= n as int,
            (n as int) < sq(hi as int + 1),
        decreases hi - lo,
    {
        let mid: u64 = lo + (hi - lo + 1) / 2;
        proof {
            lemma_sq_bound(mid as int, 0xFFFF_FFFF);
        }
        if mid * mid <= n {
            lo = mid;
        } else {
            hi = mid - 1;
        }
    }
    proof {
        lemma_sqrt_floor_unique(n as int, lo as int);
    }
    lo
}

/// Ceiling of the square root: `n <= r*r`, tight from below.
pub fn isqrt_ceil(n: u64) -> (r: u64)
    ensures
        n as int <= sq(r as int),
        n > 0 ==> r >= 1 && sq(r as int - 1) < n as int,
        n == 0 ==> r == 0,
        r <= 0x1_0000_0000u64,
        r == sqrt_ceil(n as int),
{
    let f: u64 = isqrt(n);
    proof {
        lemma_sq_bound(f as int, 0xFFFF_FFFF);
    }
    if f * f == n {
        proof {
            if n > 0 {
                assert(f >= 1) by (nonlinear_arith)
                    requires
                        sq(f as int) == n as int,
                        n > 0,
                ;
                assert(sq(f as int - 1) < sq(f as int)) by (nonlinear_arith)
                    requires
                        f as int >= 1,
                ;
            }
            if n == 0 {
                assert(f == 0) by (nonlinear_arith)
                    requires
                        sq(f as int) <= 0,
                ;
            }
        }
        f
    } else {
        f + 1
    }
}

} // verus!
