//! Fixed-point planar vectors.
//!
//! All simulation geometry is carried in milli-units: an `i64`
//! coordinate of `1000` stands for one world unit.  Working over the
//! integers keeps every operation exact, so contracts can state results
//! precisely instead of up to rounding error.

use vstd::prelude::*;

verus! {

/// One world unit in fixed-point milli-units.
pub const MILLI: i64 = 1000;

/// Largest coordinate magnitude the simulation admits.  Keeping
/// positions inside this box keeps every squared distance, dot product
/// and cross product within `i64`/`i128` range.
pub const COORD_LIMIT: i64 = 1_000_000_000;

/// Bound on a product from bounds on its factors.
pub proof fn lemma_mul_le(a: int, b: int, c: int, d: int)
    by (nonlinear_arith)
    requires
        -c <= a <= c,
        -d <= b <= d,
        c >= 0,
        d >= 0,
    ensures
        -(c * d) <= a * b <= c * d,
{
}

/// Bound on a truncating fixed-point product from bounds on its
/// factors.
pub proof fn lemma_mul_div_bound(a: int, b: int, c: int, d: int)
    requires
        -c <= a <= c,
        -d <= b <= d,
        c >= 0,
        d >= 0,
    ensures
        -((c * d) / 1000) <= spec_mul_div(a, b, 1000) <= (c * d) / 1000,
{
    lemma_mul_le(a, b, c, d);
    let p = a * b;
    if p >= 0 {
        vstd::arithmetic::div_mod::lemma_div_is_ordered(p, c * d, 1000);
        vstd::arithmetic::div_mod::lemma_div_pos_is_pos(p, 1000);
    } else {
        vstd::arithmetic::div_mod::lemma_div_is_ordered(-p, c * d, 1000);
        vstd::arithmetic::div_mod::lemma_div_pos_is_pos(-p, 1000);
    }
}

/// A square is never negative.
pub proof fn lemma_sq_nonneg(a: int)
    by (nonlinear_arith)
    ensures
        a * a >= 0,
{
}

/// A planar vector in milli-units.
#[derive(Clone, Copy, PartialEq, Eq, Structural, Debug)]
pub struct Vec2I {
    pub x: i64,
    pub y: i64,
}

/// Truncating fixed-point product: `a * b / d` rounded toward zero,
/// the integer image of multiplying two scaled values.
pub open spec fn spec_mul_div(a: int, b: int, d: int) -> int
    recommends
        d > 0,
{
    if a * b >= 0 {
        (a * b) / d
    } else {
        -((-(a * b)) / d)
    }
}

impl Vec2I {
    /// The coordinates lie inside the simulation's world box.
    pub open spec fn in_bounds(self) -> bool {
        -COORD_LIMIT <= self.x <= COORD_LIMIT && -COORD_LIMIT <= self.y <= COORD_LIMIT
    }

    /// The tighter box combat happens in: far enough from the world
    /// box's edge that an aim point offset by velocity and jitter
    /// still subtracts safely.
    pub open spec fn in_combat_bounds(self) -> bool {
        -900_000_000 <= self.x <= 900_000_000 && -900_000_000 <= self.y <= 900_000_000
    }

    /// The coordinates lie inside twice the world box; differences of
    /// in-bounds vectors land here.
    pub open spec fn in_wide_bounds(self) -> bool {
        -2 * COORD_LIMIT <= self.x <= 2 * COORD_LIMIT
            && -2 * COORD_LIMIT <= self.y <= 2 * COORD_LIMIT
    }

    /// The origin.
    pub fn zero() -> (r: Vec2I)
        ensures
            r.x == 0,
            r.y == 0,
    {
        Vec2I { x: 0, y: 0 }
    }

    /// Component-wise sum.
    pub fn plus(self, o: Vec2I) -> (r: Vec2I)
        requires
            self.x + o.x <= i64::MAX,
            self.x + o.x >= i64::MIN,
            self.y + o.y <= i64::MAX,
            self.y + o.y >= i64::MIN,
        ensures
            r.x == self.x + o.x,
            r.y == self.y + o.y,
    {
        Vec2I { x: self.x + o.x, y: self.y + o.y }
    }

    /// Component-wise difference.
    pub fn minus(self, o: Vec2I) -> (r: Vec2I)
        requires
            self.x - o.x <= i64::MAX,
            self.x - o.x >= i64::MIN,
            self.y - o.y <= i64::MAX,
            self.y - o.y >= i64::MIN,
        ensures
            r.x == self.x - o.x,
            r.y == self.y - o.y,
    {
        Vec2I { x: self.x - o.x, y: self.y - o.y }
    }

    /// The right-hand perpendicular `(y, -x)`, the lateral axis used
    /// for wobble and strafing.
    pub fn perp(self) -> (r: Vec2I)
        requires
            self.x > i64::MIN,
        ensures
            r.x == self.y,
            r.y == -self.x,
    {
        Vec2I { x: self.y, y: -self.x }
    }

    /// Scale by a milli-unit factor: each coordinate becomes
    /// `coord * k / 1000`, rounded toward zero.
    pub fn scaled_milli(self, k: i64) -> (r: Vec2I)
        requires
            self.in_wide_bounds(),
            -1_000_000 <= k <= 1_000_000,
        ensures
            r.x == spec_mul_div(self.x as int, k as int, MILLI as int),
            r.y == spec_mul_div(self.y as int, k as int, MILLI as int),
    {
        Vec2I { x: mul_div_milli(self.x, k), y: mul_div_milli(self.y, k) }
    }

    /// Dot product, exact.
    pub fn dot(self, o: Vec2I) -> (r: i64)
        requires
            self.in_wide_bounds(),
            o.in_wide_bounds(),
        ensures
            r == self.x * o.x + self.y * o.y,
    {
        proof {
            lemma_mul_le(self.x as int, o.x as int, 2_000_000_000int, 2_000_000_000int);
            lemma_mul_le(self.y as int, o.y as int, 2_000_000_000int, 2_000_000_000int);
        }
        self.x * o.x + self.y * o.y
    }

    /// Planar cross product (z-component), exact.  Its sign tells on
    /// which side of `self` the vector `o` lies.
    pub fn cross(self, o: Vec2I) -> (r: i64)
        requires
            self.in_wide_bounds(),
            o.in_wide_bounds(),
        ensures
            r == self.x * o.y - self.y * o.x,
    {
        proof {
            lemma_mul_le(self.x as int, o.y as int, 2_000_000_000int, 2_000_000_000int);
            lemma_mul_le(self.y as int, o.x as int, 2_000_000_000int, 2_000_000_000int);
        }
        self.x * o.y - self.y * o.x
    }

    /// Squared length, exact.
    pub fn len_sq(self) -> (r: i64)
        requires
            self.in_wide_bounds(),
        ensures
            r == self.x * self.x + self.y * self.y,
            r >= 0,
    {
        proof {
            lemma_mul_le(self.x as int, self.x as int, 2_000_000_000int, 2_000_000_000int);
            lemma_mul_le(self.y as int, self.y as int, 2_000_000_000int, 2_000_000_000int);
            lemma_sq_nonneg(self.x as int);
            lemma_sq_nonneg(self.y as int);
        }
        self.x * self.x + self.y * self.y
    }

    /// Squared distance to `o`, exact.
    pub fn dist_sq(self, o: Vec2I) -> (r: i64)
        requires
            self.in_bounds(),
            o.in_bounds(),
        ensures
            r == spec_dist_sq(self, o),
            r >= 0,
    {
        let dx = self.x - o.x;
        let dy = self.y - o.y;
        proof {
            lemma_mul_le(dx as int, dx as int, 2_000_000_000int, 2_000_000_000int);
            lemma_mul_le(dy as int, dy as int, 2_000_000_000int, 2_000_000_000int);
            lemma_sq_nonneg(dx as int);
            lemma_sq_nonneg(dy as int);
        }
        dx * dx + dy * dy
    }
}

/// `a * k / 1000` rounded toward zero, exact per `spec_mul_div`.
pub fn mul_div_milli(a: i64, k: i64) -> (r: i64)
    requires
        -2 * COORD_LIMIT <= a <= 2 * COORD_LIMIT,
        -1_000_000 <= k <= 1_000_000,
    ensures
        r == spec_mul_div(a as int, k as int, MILLI as int),
{
    proof {
        lemma_mul_le(a as int, k as int, 2_000_000_000int, 1_000_000int);
    }
    let p = a * k;
    if p >= 0 {
        p / MILLI
    } else {
        -((-p) / MILLI)
    }
}

/// The integer square root: the unique `r >= 0` with
/// `r * r <= n < (r + 1) * (r + 1)`.
pub open spec fn spec_isqrt(n: int) -> int
    recommends
        n >= 0,
{
    choose|r: int| r >= 0 && #[trigger] (r * r) <= n < (r + 1) * (r + 1)
}

/// Two integer square roots of the same number are equal.
pub proof fn lemma_isqrt_unique(n: int, a: int, b: int)
    by (nonlinear_arith)
    requires
        a >= 0,
        b >= 0,
        a * a <= n < (a + 1) * (a + 1),
        b * b <= n < (b + 1) * (b + 1),
    ensures
        a == b,
{
}

/// Compute the integer square root by bisection.
pub fn isqrt64(n: i64) -> (r: i64)
    requires
        n >= 0,
    ensures
        r >= 0,
        r * r <= n,
        (r + 1) * (r + 1) > n,
        r == spec_isqrt(n as int),
{
    let mut lo: i64 = 0;
    let mut hi: i64 = 3_037_000_499;
    proof {
        assert((3_037_000_499int + 1) * (3_037_000_499int + 1) > i64::MAX);
    }
    while lo < hi
        invariant
            0 <= lo <= hi <= 3_037_000_499,
            lo * lo <= n,
            (hi + 1) * (hi + 1) > n,
        decreases hi - lo,
    {
        let mid = lo + (hi - lo + 1) / 2;
        proof {
            lemma_mul_le(mid as int, mid as int, 3_037_000_500int, 3_037_000_500int);
        }
        let sq: i128 = (mid as i128) * (mid as i128);
        if sq <= n as i128 {
            lo = mid;
        } else {
            hi = mid - 1;
        }
    }
    proof {
        assert(lo >= 0 && lo * lo <= n < (lo + 1) * (lo + 1));
        assert(exists|r: int| r >= 0 && #[trigger] (r * r) <= n < (r + 1) * (r + 1)) by {
            assert(lo as int >= 0 && (lo as int) * (lo as int) <= n < ((lo as int) + 1) * ((lo
                as int) + 1));
        }
        lemma_isqrt_unique(n as int, lo as int, spec_isqrt(n as int));
    }
    lo
}

/// `a * k / d` rounded toward zero, for a positive divisor.
pub fn mul_div_pos(a: i64, k: i64, d: i64) -> (r: i64)
    requires
        -2 * COORD_LIMIT <= a <= 2 * COORD_LIMIT,
        -10_000_000 <= k <= 10_000_000,
        d > 0,
    ensures
        r == spec_mul_div(a as int, k as int, d as int),
{
    proof {
        lemma_mul_le(a as int, k as int, 2_000_000_000int, 10_000_000int);
    }
    let p = a * k;
    if p >= 0 {
        p / d
    } else {
        -((-p) / d)
    }
}

/// The velocity vector of a projectile launched along `v` at scalar
/// speed `speed` (milli-units per tick): `v` rescaled to length
/// `speed` by the integer square root of its squared length, or the
/// zero vector when `v` is zero — an undefined direction is replaced
/// by a harmless zero rather than propagated.
pub open spec fn spec_dir_scaled(v: Vec2I, speed: i64) -> (int, int) {
    if v.x == 0 && v.y == 0 {
        (0int, 0int)
    } else {
        let norm = spec_isqrt(v.x * v.x + v.y * v.y);
        (spec_mul_div(v.x as int, speed as int, norm), spec_mul_div(v.y as int, speed as int, norm))
    }
}

/// Rescale `v` to scalar length `speed`, exactly per
/// `spec_dir_scaled`.
pub fn dir_scaled(v: Vec2I, speed: i64) -> (r: Vec2I)
    requires
        v.in_wide_bounds(),
        0 <= speed <= 10_000_000,
    ensures
        r.x == spec_dir_scaled(v, speed).0,
        r.y == spec_dir_scaled(v, speed).1,
{
    if v.x == 0 && v.y == 0 {
        Vec2I { x: 0, y: 0 }
    } else {
        let len = v.len_sq();
        let norm = isqrt64(len);
        proof {
            lemma_sq_nonneg(v.x as int);
            lemma_sq_nonneg(v.y as int);
            if norm == 0 {
                assert(len == 0) by (nonlinear_arith)
                    requires
                        norm as int == 0,
                        len as int >= 0,
                        ((norm as int) + 1) * ((norm as int) + 1) > len as int,
                ;
                assert(v.x as int * v.x as int == 0) by (nonlinear_arith)
                    requires
                        v.x as int * v.x as int >= 0,
                        v.y as int * v.y as int >= 0,
                        v.x as int * v.x as int + v.y as int * v.y as int == 0,
                ;
                assert(v.y as int * v.y as int == 0) by (nonlinear_arith)
                    requires
                        v.x as int * v.x as int >= 0,
                        v.y as int * v.y as int >= 0,
                        v.x as int * v.x as int + v.y as int * v.y as int == 0,
                ;
                assert(v.x == 0 && v.y == 0) by (nonlinear_arith)
                    requires
                        v.x as int * v.x as int == 0,
                        v.y as int * v.y as int == 0,
                ;
            }
        }
        Vec2I { x: mul_div_pos(v.x, speed, norm), y: mul_div_pos(v.y, speed, norm) }
    }
}

/// Squared distance between two points, as a mathematical integer.
pub open spec fn spec_dist_sq(a: Vec2I, b: Vec2I) -> int {
    (a.x - b.x) * (a.x - b.x) + (a.y - b.y) * (a.y - b.y)
}

/// `a` is within 45 degrees of direction `d`: both nonzero, the dot
/// product nonnegative (the angle is acute or right) and
/// `2 * dot^2 >= |d|^2 * |a|^2`, which for a nonnegative dot product
/// says `cos^2` of the angle is at least one half.  This is the exact
/// integer form of `|angle(d, a)| <= 45 degrees`.
pub open spec fn spec_cone_xy(dx: int, dy: int, ax: int, ay: int) -> bool {
    let dot = dx * ax + dy * ay;
    let d2 = dx * dx + dy * dy;
    let a2 = ax * ax + ay * ay;
    d2 > 0 && a2 > 0 && dot >= 0 && 2 * dot * dot >= d2 * a2
}

/// `spec_cone_xy` over the components of two vectors.
pub open spec fn spec_within_cone(d: Vec2I, a: Vec2I) -> bool {
    spec_cone_xy(d.x as int, d.y as int, a.x as int, a.y as int)
}

/// Decide whether `a` lies within the 45-degree half-cone around `d`.
pub fn within_cone(d: Vec2I, a: Vec2I) -> (r: bool)
    requires
        d.in_wide_bounds(),
        a.in_wide_bounds(),
    ensures
        r == spec_within_cone(d, a),
{
    let dot = d.dot(a);
    let d2 = d.len_sq();
    let a2 = a.len_sq();
    if d2 > 0 && a2 > 0 && dot >= 0 {
        proof {
            lemma_mul_le(d.x as int, a.x as int, 2_000_000_000int, 2_000_000_000int);
            lemma_mul_le(d.y as int, a.y as int, 2_000_000_000int, 2_000_000_000int);
            lemma_mul_le(
                2 * dot as int,
                dot as int,
                16_000_000_000_000_000_000int,
                8_000_000_000_000_000_000int,
            );
            lemma_mul_le(d2 as int, a2 as int, 0x8000000000000000int, 0x8000000000000000int);
        }
        let lhs: i128 = 2 * (dot as i128) * (dot as i128);
        let rhs: i128 = (d2 as i128) * (a2 as i128);
        lhs >= rhs
    } else {
        false
    }
}

} // verus!
