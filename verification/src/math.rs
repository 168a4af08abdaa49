//! Exact fixed-point math for FOV geometry.
//!
//! Coordinates live in tile-space scaled by [`SCALE`]: one tile spans `SCALE`
//! units, so tile corners sit at multiples of `SCALE` and tile centers at odd
//! multiples of `SCALE / 2`. All segment intersection tests are exact integer
//! arithmetic; there is no rounding anywhere in the core.

use vstd::prelude::*;

verus! {

/// Number of fixed-point units per tile side.
pub const SCALE: i64 = 100;

/// Largest magnitude a coordinate may have for the intersection and distance
/// routines to be free of overflow (1,000 tiles from the origin — far beyond
/// the largest supported FOV radius).
pub const COORD_LIMIT: i64 = 100_000;

/// 2D integer tile deltas.
#[derive(Debug, Clone, Copy, PartialEq, Eq, Structural)]
pub struct Delta {
    pub dx: i32,
    pub dy: i32,
}

impl Delta {
    pub fn new(dx: i32, dy: i32) -> (d: Delta)
        ensures
            d.dx == dx,
            d.dy == dy,
    {
        Delta { dx, dy }
    }
}

/// 2D fixed-point coordinates (units of `1 / SCALE` tiles).
#[derive(Debug, Clone, Copy, PartialEq, Eq, Structural)]
pub struct Point {
    pub x: i64,
    pub y: i64,
}

impl Point {
    /// True when both coordinates are small enough for exact arithmetic.
    pub open spec fn in_bounds(self) -> bool {
        &&& -COORD_LIMIT <= self.x <= COORD_LIMIT
        &&& -COORD_LIMIT <= self.y <= COORD_LIMIT
    }

    pub fn new(x: i64, y: i64) -> (p: Point)
        ensures
            p.x == x,
            p.y == y,
    {
        Point { x, y }
    }

    /// Returns the Euclidean distance between `self` and `other` in
    /// fixed-point units, rounded down.
    pub fn distance(&self, other: Point) -> (r: i64)
        requires
            self.in_bounds(),
            other.in_bounds(),
        ensures
            is_sqrt_floor(dist_sq(*self, other), r as int),
    {
        let dx = other.x - self.x;
        let dy = other.y - self.y;
        proof {
            lemma_square_bound(dx as int, 2 * COORD_LIMIT);
            lemma_square_bound(dy as int, 2 * COORD_LIMIT);
        }
        isqrt(dx * dx + dy * dy)
    }

    /// Creates a new `Point` displaced by `Vector` `v`.
    pub fn shifted_by(&self, v: Vector) -> (p: Point)
        requires
            self.in_bounds(),
            v.in_bounds(),
        ensures
            p.x == self.x + v.x,
            p.y == self.y + v.y,
    {
        Point { x: self.x + v.x, y: self.y + v.y }
    }

    /// Displaces the current `Point` by `Vector` `v`, in place.
    pub fn shift_by(&mut self, v: Vector)
        requires
            old(self).in_bounds(),
            v.in_bounds(),
        ensures
            final(self).x == old(self).x + v.x,
            final(self).y == old(self).y + v.y,
    {
        self.x = self.x + v.x;
        self.y = self.y + v.y;
    }
}

/// Squared Euclidean distance between two points.
pub open spec fn dist_sq(a: Point, b: Point) -> int {
    (b.x - a.x) * (b.x - a.x) + (b.y - a.y) * (b.y - a.y)
}

/// 2D fixed-point displacement vector.
#[derive(Debug, Clone, Copy, PartialEq, Eq, Structural)]
pub struct Vector {
    pub x: i64,
    pub y: i64,
}

/// Squared magnitude of a vector.
pub open spec fn vec_mag_sq(v: Vector) -> int {
    v.x * v.x + v.y * v.y
}

impl Vector {
    /// True when both components are small enough for exact arithmetic.
    pub open spec fn in_bounds(self) -> bool {
        &&& -COORD_LIMIT <= self.x <= COORD_LIMIT
        &&& -COORD_LIMIT <= self.y <= COORD_LIMIT
    }

    /// The vector after normalization: each component of `v` scaled by
    /// `SCALE / m`, where `m` is the (floor) magnitude of `v`, so that the
    /// result has magnitude close to one tile (`SCALE` units).
    pub open spec fn normalized_spec(v: Vector, m: int) -> Vector {
        Vector {
            x: div_toward_zero(v.x * SCALE, m) as i64,
            y: div_toward_zero(v.y * SCALE, m) as i64,
        }
    }

    pub fn new(x: i64, y: i64) -> (v: Vector)
        ensures
            v.x == x,
            v.y == y,
    {
        Vector { x, y }
    }

    /// Returns the magnitude of the vector in fixed-point units, rounded
    /// down.
    pub fn magnitude(self) -> (r: i64)
        requires
            self.in_bounds(),
        ensures
            is_sqrt_floor(vec_mag_sq(self), r as int),
    {
        proof {
            lemma_square_bound(self.x as int, COORD_LIMIT as int);
            lemma_square_bound(self.y as int, COORD_LIMIT as int);
        }
        isqrt(self.x * self.x + self.y * self.y)
    }

    /// Normalizes the vector in place so its magnitude is close to one tile
    /// (`SCALE` units). Fails — leaving the vector unchanged — exactly on the
    /// degenerate zero vector, whose direction is undefined.
    pub fn normalize(&mut self) -> (res: Result<(), GeomError>)
        requires
            old(self).in_bounds(),
        ensures
            res is Ok <==> !(old(self).x == 0 && old(self).y == 0),
            res is Ok ==> exists|m: int|
                #![auto]
                is_sqrt_floor(vec_mag_sq(*old(self)), m) && *final(self)
                    == Vector::normalized_spec(*old(self), m),
            res is Err ==> *final(self) == *old(self) && res == Err::<(), GeomError>(
                GeomError::DegenerateVector,
            ),
    {
        let mag = self.magnitude();
        proof {
            assert(self.x != 0 ==> self.x * self.x >= 1) by (nonlinear_arith);
            assert(self.y != 0 ==> self.y * self.y >= 1) by (nonlinear_arith);
            assert(self.x * self.x >= 0 && self.y * self.y >= 0) by (nonlinear_arith);
            assert(mag >= 1 ==> mag * mag >= 1) by (nonlinear_arith);
        }
        if mag == 0 {
            proof {
                assert((mag as int + 1) * (mag as int + 1) == 1) by (nonlinear_arith)
                    requires
                        mag == 0,
                ;
                assert(vec_mag_sq(*old(self)) < 1);
                assert(old(self).x == 0 && old(self).y == 0);
            }
            return Err(GeomError::DegenerateVector);
        }
        let sx = scale_div(self.x, mag);
        let sy = scale_div(self.y, mag);
        self.x = sx;
        self.y = sy;
        proof {
            assert(is_sqrt_floor(vec_mag_sq(*old(self)), mag as int) && *self
                == Vector::normalized_spec(*old(self), mag as int));
        }
        Ok(())
    }

    /// Creates a new normalized vector; fails exactly on the zero vector.
    pub fn normalized(x: i64, y: i64) -> (res: Result<Vector, GeomError>)
        requires
            -COORD_LIMIT <= x <= COORD_LIMIT,
            -COORD_LIMIT <= y <= COORD_LIMIT,
        ensures
            res is Ok <==> !(x == 0 && y == 0),
            res is Ok ==> exists|m: int|
                #![auto]
                is_sqrt_floor(vec_mag_sq(Vector { x, y }), m) && res == Ok::<Vector, GeomError>(
                    Vector::normalized_spec(Vector { x, y }, m),
                ),
            res is Err ==> res == Err::<Vector, GeomError>(GeomError::DegenerateVector),
    {
        let mut v = Vector { x, y };
        match v.normalize() {
            Ok(()) => Ok(v),
            Err(e) => Err(e),
        }
    }

    /// Componentwise vector addition.
    pub fn plus(self, rhs: Vector) -> (v: Vector)
        requires
            self.in_bounds(),
            rhs.in_bounds(),
        ensures
            v.x == self.x + rhs.x,
            v.y == self.y + rhs.y,
    {
        Vector { x: self.x + rhs.x, y: self.y + rhs.y }
    }

    /// Componentwise vector subtraction.
    pub fn minus(self, rhs: Vector) -> (v: Vector)
        requires
            self.in_bounds(),
            rhs.in_bounds(),
        ensures
            v.x == self.x - rhs.x,
            v.y == self.y - rhs.y,
    {
        Vector { x: self.x - rhs.x, y: self.y - rhs.y }
    }
}

/// One fixed-point scaling step of normalization: `a * SCALE / mag`, rounded
/// toward zero.
fn scale_div(a: i64, mag: i64) -> (r: i64)
    requires
        -COORD_LIMIT <= a <= COORD_LIMIT,
        1 <= mag,
    ensures
        r as int == div_toward_zero(a * SCALE, mag as int),
{
    let abs_a = if a >= 0 {
        a
    } else {
        -a
    };
    let q = ((abs_a * SCALE) as u64 / (mag as u64)) as i64;
    proof {
        vstd::arithmetic::div_mod::lemma_div_is_ordered_by_denominator(
            (abs_a * SCALE) as int,
            1,
            mag as int,
        );
    }
    if a >= 0 {
        q
    } else {
        -q
    }
}

/// 2D directed line segment in fixed-point coordinates, from `(x1, y1)` to
/// `(x2, y2)`.
#[derive(Debug, Clone, Copy, PartialEq, Eq, Structural)]
pub struct Line {
    pub x1: i64,
    pub y1: i64,
    pub x2: i64,
    pub y2: i64,
}

/// Denominator of the parametric segment intersection of `a` (parameter `t`)
/// and `b` (parameter `u`); zero exactly when the segments are parallel.
pub open spec fn seg_denom(a: Line, b: Line) -> int {
    (a.x1 - a.x2) * (b.y1 - b.y2) - (a.y1 - a.y2) * (b.x1 - b.x2)
}

/// Numerator of parameter `t` (position along `a`) at the intersection.
pub open spec fn seg_t_num(a: Line, b: Line) -> int {
    (a.x1 - b.x1) * (b.y1 - b.y2) - (a.y1 - b.y1) * (b.x1 - b.x2)
}

/// Numerator of parameter `u` (position along `b`) at the intersection.
pub open spec fn seg_u_num(a: Line, b: Line) -> int {
    (a.x1 - b.x1) * (a.y1 - a.y2) - (a.y1 - b.y1) * (a.x1 - a.x2)
}

/// True when `num / den` falls strictly outside the closed interval `[0, 1]`,
/// accounting for the sign of `den`. Touching an endpoint (`num == 0` or
/// `num == den`) still counts as inside: intersections are closed-interval.
pub open spec fn param_outside(num: int, den: int) -> bool {
    ||| num > 0 && num > den
    ||| num < 0 && num < den
}

/// Exact segment intersection predicate: the two closed segments meet in a
/// single point. Parallel and collinear segments never intersect under this
/// definition, even when they overlap.
pub open spec fn seg_intersects(a: Line, b: Line) -> bool {
    !({
        ||| seg_denom(a, b) == 0
        ||| param_outside(seg_t_num(a, b), seg_denom(a, b))
        ||| param_outside(seg_u_num(a, b), seg_denom(a, b))
    })
}

/// Errors raised by degenerate geometric inputs.
#[derive(Debug, Clone, Copy, PartialEq, Eq, Structural)]
pub enum GeomError {
    /// A zero-magnitude vector cannot be normalized.
    DegenerateVector,
}

/// Truncating (toward-zero) division of `a` by a positive `m`, as the
/// fixed-point scaling steps compute it.
pub open spec fn div_toward_zero(a: int, m: int) -> int {
    if a >= 0 {
        a / m
    } else {
        -((-a) / m)
    }
}

/// `r` is the integer square root of `v`, rounded down.
pub open spec fn is_sqrt_floor(v: int, r: int) -> bool {
    &&& r >= 0
    &&& r * r <= v
    &&& v < (r + 1) * (r + 1)
}

/// Integer square root by bisection, rounded down.
fn isqrt(v: i64) -> (r: i64)
    requires
        0 <= v <= 4_000_000_000_000,
    ensures
        is_sqrt_floor(v as int, r as int),
{
    let mut lo: i64 = 0;
    let mut hi: i64 = 2_000_001;
    assert(hi * hi > v) by (nonlinear_arith)
        requires
            hi == 2_000_001,
            v <= 4_000_000_000_000,
    ;
    while hi - lo > 1
        invariant
            0 <= lo < hi <= 2_000_001,
            lo * lo <= v,
            hi * hi > v,
        decreases hi - lo,
    {
        let mid = lo + (hi - lo) / 2;
        assert(lo < mid < hi);
        assert(0 <= mid * mid <= 4_000_004_000_001) by (nonlinear_arith)
            requires
                0 <= mid <= 2_000_001,
        ;
        if mid * mid <= v {
            lo = mid;
        } else {
            hi = mid;
        }
    }
    lo
}

/// Square bound: `|a| <= m` gives `0 <= a * a <= m * m`.
pub(crate) proof fn lemma_square_bound(a: int, m: int)
    by (nonlinear_arith)
    requires
        -m <= a <= m,
        0 <= m,
    ensures
        0 <= a * a <= m * m,
{
}

/// Product bound: `|a| <= m` and `|b| <= n` give `|a * b| <= m * n`.
proof fn lemma_mul_bound(a: int, b: int, m: int, n: int)
    by (nonlinear_arith)
    requires
        -m <= a <= m,
        -n <= b <= n,
        0 <= m,
        0 <= n,
    ensures
        -(m * n) <= a * b <= m * n,
{
}

impl Line {
    /// True when all four coordinates are small enough for exact arithmetic.
    pub open spec fn in_bounds(self) -> bool {
        &&& -COORD_LIMIT <= self.x1 <= COORD_LIMIT
        &&& -COORD_LIMIT <= self.y1 <= COORD_LIMIT
        &&& -COORD_LIMIT <= self.x2 <= COORD_LIMIT
        &&& -COORD_LIMIT <= self.y2 <= COORD_LIMIT
    }

    pub fn new(x1: i64, y1: i64, x2: i64, y2: i64) -> (l: Line)
        ensures
            l == (Line { x1, y1, x2, y2 }),
    {
        Line { x1, y1, x2, y2 }
    }

    /// Creates a new `Line` displaced by `x` and `y`.
    pub fn shifted_by(&self, x: i64, y: i64) -> (l: Line)
        requires
            self.in_bounds(),
            -COORD_LIMIT <= x <= COORD_LIMIT,
            -COORD_LIMIT <= y <= COORD_LIMIT,
        ensures
            l.x1 == self.x1 + x,
            l.y1 == self.y1 + y,
            l.x2 == self.x2 + x,
            l.y2 == self.y2 + y,
    {
        Line { x1: self.x1 + x, y1: self.y1 + y, x2: self.x2 + x, y2: self.y2 + y }
    }

    /// Returns the length of the line in fixed-point units, rounded down.
    pub fn length(&self) -> (r: i64)
        requires
            self.in_bounds(),
        ensures
            is_sqrt_floor(len_sq(*self), r as int),
    {
        let dx = self.x1 - self.x2;
        let dy = self.y1 - self.y2;
        proof {
            lemma_square_bound(dx as int, 2 * COORD_LIMIT);
            lemma_square_bound(dy as int, 2 * COORD_LIMIT);
        }
        isqrt(dx * dx + dy * dy)
    }

    /// Returns `true` if `self` intersects the `other` segment, else `false`.
    ///
    /// Both segments are treated as closed intervals: intersections that only
    /// touch an endpoint count. Parallel (and collinear) segments never
    /// intersect.
    pub fn intersects(self, other: Line) -> (r: bool)
        requires
            self.in_bounds(),
            other.in_bounds(),
        ensures
            r == seg_intersects(self, other),
    {
        let dax = self.x1 - self.x2;
        let day = self.y1 - self.y2;
        let dbx = other.x1 - other.x2;
        let dby = other.y1 - other.y2;
        let ox = self.x1 - other.x1;
        let oy = self.y1 - other.y1;
        proof {
            lemma_mul_bound(dax as int, dby as int, 2 * COORD_LIMIT, 2 * COORD_LIMIT);
            lemma_mul_bound(day as int, dbx as int, 2 * COORD_LIMIT, 2 * COORD_LIMIT);
            lemma_mul_bound(ox as int, dby as int, 2 * COORD_LIMIT, 2 * COORD_LIMIT);
            lemma_mul_bound(oy as int, dbx as int, 2 * COORD_LIMIT, 2 * COORD_LIMIT);
            lemma_mul_bound(ox as int, day as int, 2 * COORD_LIMIT, 2 * COORD_LIMIT);
            lemma_mul_bound(oy as int, dax as int, 2 * COORD_LIMIT, 2 * COORD_LIMIT);
        }
        let denom = dax * dby - day * dbx;
        let t_num = ox * dby - oy * dbx;
        let u_num = ox * day - oy * dax;

        !(denom == 0
            || (t_num > 0 && t_num > denom)
            || (t_num < 0 && t_num < denom)
            || (u_num > 0 && u_num > denom)
            || (u_num < 0 && u_num < denom))
    }
}

/// Squared length of a line segment.
pub open spec fn len_sq(l: Line) -> int {
    (l.x1 - l.x2) * (l.x1 - l.x2) + (l.y1 - l.y2) * (l.y1 - l.y2)
}

/// Exact intersection point of two segments, as a rational: the point is
/// `(x_num / den, y_num / den)` in fixed-point units, with `den > 0`.
#[derive(Debug, Clone, Copy, PartialEq, Eq, Structural)]
pub struct IsectPoint {
    pub x_num: i64,
    pub y_num: i64,
    pub den: i64,
}

/// Numerator of the intersection's x coordinate over denominator
/// `seg_denom(a, b)`: `x1 + t * (x2 - x1)` cleared of the division `t =
/// seg_t_num / seg_denom`.
pub open spec fn isect_x_num(a: Line, b: Line) -> int {
    a.x1 * seg_denom(a, b) + seg_t_num(a, b) * (a.x2 - a.x1)
}

/// Numerator of the intersection's y coordinate over denominator
/// `seg_denom(a, b)`.
pub open spec fn isect_y_num(a: Line, b: Line) -> int {
    a.y1 * seg_denom(a, b) + seg_t_num(a, b) * (a.y2 - a.y1)
}

impl Line {
    /// Returns the intersection point of `self` and `other`, else `None`.
    ///
    /// The point is returned as an exact rational, normalized to a positive
    /// denominator; `Some` is returned exactly when
    /// [`intersects`](Line::intersects) holds.
    pub fn intersection(self, other: Line) -> (r: Option<IsectPoint>)
        requires
            self.in_bounds(),
            other.in_bounds(),
        ensures
            r is Some <==> seg_intersects(self, other),
            r matches Some(p) ==> ({
                let d = seg_denom(self, other);
                &&& p.den == if d >= 0 { d } else { -d }
                &&& p.x_num == if d >= 0 { isect_x_num(self, other) } else { -isect_x_num(self, other) }
                &&& p.y_num == if d >= 0 { isect_y_num(self, other) } else { -isect_y_num(self, other) }
            }),
    {
        let dax = self.x1 - self.x2;
        let day = self.y1 - self.y2;
        let dbx = other.x1 - other.x2;
        let dby = other.y1 - other.y2;
        let ox = self.x1 - other.x1;
        let oy = self.y1 - other.y1;
        proof {
            lemma_mul_bound(dax as int, dby as int, 2 * COORD_LIMIT, 2 * COORD_LIMIT);
            lemma_mul_bound(day as int, dbx as int, 2 * COORD_LIMIT, 2 * COORD_LIMIT);
            lemma_mul_bound(ox as int, dby as int, 2 * COORD_LIMIT, 2 * COORD_LIMIT);
            lemma_mul_bound(oy as int, dbx as int, 2 * COORD_LIMIT, 2 * COORD_LIMIT);
            lemma_mul_bound(ox as int, day as int, 2 * COORD_LIMIT, 2 * COORD_LIMIT);
            lemma_mul_bound(oy as int, dax as int, 2 * COORD_LIMIT, 2 * COORD_LIMIT);
        }
        let denom = dax * dby - day * dbx;
        let t_num = ox * dby - oy * dbx;
        let u_num = ox * day - oy * dax;

        if denom == 0
            || (t_num > 0 && t_num > denom)
            || (t_num < 0 && t_num < denom)
            || (u_num > 0 && u_num > denom)
            || (u_num < 0 && u_num < denom)
        {
            return None;
        }

        proof {
            lemma_mul_bound(
                self.x1 as int,
                denom as int,
                COORD_LIMIT as int,
                8 * COORD_LIMIT * COORD_LIMIT,
            );
            lemma_mul_bound(
                self.y1 as int,
                denom as int,
                COORD_LIMIT as int,
                8 * COORD_LIMIT * COORD_LIMIT,
            );
            lemma_mul_bound(
                t_num as int,
                -dax as int,
                8 * COORD_LIMIT * COORD_LIMIT,
                2 * COORD_LIMIT,
            );
            lemma_mul_bound(
                t_num as int,
                -day as int,
                8 * COORD_LIMIT * COORD_LIMIT,
                2 * COORD_LIMIT,
            );
        }
        let nx = self.x1 * denom + t_num * (-dax);
        let ny = self.y1 * denom + t_num * (-day);
        if denom > 0 {
            Some(IsectPoint { x_num: nx, y_num: ny, den: denom })
        } else {
            Some(IsectPoint { x_num: -nx, y_num: -ny, den: -denom })
        }
    }
}

/// Intersection tests are symmetric in their two segments.
pub proof fn lemma_intersects_symmetric(a: Line, b: Line)
    ensures
        seg_intersects(a, b) == seg_intersects(b, a),
{
    assert(seg_denom(b, a) == -seg_denom(a, b)) by (nonlinear_arith);
    assert(seg_t_num(b, a) == -seg_u_num(a, b)) by (nonlinear_arith);
    assert(seg_u_num(b, a) == -seg_t_num(a, b)) by (nonlinear_arith);
}

/// Parallel segments — equal direction cross product, which covers collinear
/// non-overlapping pairs in particular — never intersect: the denominator of
/// the parametric test is zero.
pub proof fn lemma_parallel_never_intersects(a: Line, b: Line)
    requires
        (a.x2 - a.x1) * (b.y2 - b.y1) == (a.y2 - a.y1) * (b.x2 - b.x1),
    ensures
        !seg_intersects(a, b),
{
    assert(seg_denom(a, b) == 0) by (nonlinear_arith)
        requires
            (a.x2 - a.x1) * (b.y2 - b.y1) == (a.y2 - a.y1) * (b.x2 - b.x1),
    ;
}

} // verus!
