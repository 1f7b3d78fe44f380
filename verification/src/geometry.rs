//! Small planar geometry helpers over fixed-point vectors.

use vstd::prelude::*;

use crate::math::{lemma_mul_le, Vec2I};

verus! {

/// A circle: center and radius in milli-units.
#[derive(Clone, Copy, PartialEq, Eq, Structural, Debug)]
pub struct Circle(pub Vec2I, pub i64);

/// A line through two points.
#[derive(Clone, Copy, PartialEq, Eq, Structural, Debug)]
pub struct Line(pub Vec2I, pub Vec2I);

impl Circle {
    /// Build a circle from a center and radius pair.
    pub fn from_parts(center: Vec2I, radius: i64) -> (r: Circle)
        ensures
            r.0 == center,
            r.1 == radius,
    {
        Circle(center, radius)
    }
}

impl Line {
    /// Build a line from its two endpoints.
    pub fn from_points(p: Vec2I, q: Vec2I) -> (r: Line)
        ensures
            r.0 == p,
            r.1 == q,
    {
        Line(p, q)
    }
}

/// The implicit-equation coefficients `[a, b, c]` of a line through
/// two points: `a x + b y + c == 0` holds of both endpoints.  A
/// vertical line is reported as `[x, 0, 0]`, its shared abscissa.
pub fn line_equation(line: Line) -> (r: [i64; 3])
    requires
        line.0.in_bounds(),
        line.1.in_bounds(),
    ensures
        line.0.x == line.1.x ==> r[0] == line.0.x && r[1] == 0 && r[2] == 0,
        line.0.x != line.1.x ==> {
            &&& r[0] == line.1.y - line.0.y
            &&& r[1] == line.0.x - line.1.x
            &&& r[2] == line.0.y * (line.1.x - line.0.x) - (line.1.y - line.0.y) * line.0.x
            &&& r[0] * line.0.x + r[1] * line.0.y + r[2] == 0
            &&& r[0] * line.1.x + r[1] * line.1.y + r[2] == 0
        },
{
    let Line(p, q) = line;
    if p.x == q.x {
        [p.x, 0, 0]
    } else {
        proof {
            lemma_mul_le(p.y as int, (q.x - p.x) as int, 1_000_000_000int, 2_000_000_000int);
            lemma_mul_le((q.y - p.y) as int, p.x as int, 2_000_000_000int, 1_000_000_000int);
        }
        let a = q.y - p.y;
        let b = p.x - q.x;
        let c = p.y * (q.x - p.x) - (q.y - p.y) * p.x;
        proof {
            assert((q.y - p.y) * p.x + (p.x - q.x) * p.y + (p.y * (q.x - p.x) - (q.y - p.y) * p.x)
                == 0) by (nonlinear_arith);
            assert((q.y - p.y) * q.x + (p.x - q.x) * q.y + (p.y * (q.x - p.x) - (q.y - p.y) * p.x)
                == 0) by (nonlinear_arith);
        }
        [a, b, c]
    }
}

} // verus!
