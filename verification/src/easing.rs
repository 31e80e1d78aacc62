//! Cubic Bezier easing.
//!
//! An easing curve is the cubic Bezier through `(0,0)`, `(x1,y1)`, `(x2,y2)`,
//! `(1,1)`, evaluated as a function of x. All coordinates are fixed-point
//! ([`crate::SCALE`] units represent 1.0). The curve is a function of x only
//! when both control x-coordinates lie in `[0, 1]`; control points outside the
//! unit square are rejected at construction time.

use vstd::prelude::*;

use crate::AnimationError;
use crate::SCALE;

verus! {

/// `SCALE` cubed: the denominator that brings the Bernstein polynomial
/// [`bez_poly`] back to fixed-point coordinates.
pub const CUBE_SCALE: i64 = SCALE * SCALE * SCALE;

/// Bisection depth of the parameter solver: halving `[0, SCALE]` this many
/// times narrows the bracket to a single fixed-point unit.
pub const BISECT_STEPS: u32 = 10;

/// x-coordinate of the first control point of the canonical ease-in-out curve
/// (0.42, 0, 0.58, 1), in fixed-point units.
pub const EASE_IN_OUT_X1: i64 = 420;

/// y-coordinate of the first control point of the canonical ease-in-out curve.
pub const EASE_IN_OUT_Y1: i64 = 0;

/// x-coordinate of the second control point of the canonical ease-in-out curve.
pub const EASE_IN_OUT_X2: i64 = 580;

/// y-coordinate of the second control point of the canonical ease-in-out curve.
pub const EASE_IN_OUT_Y2: i64 = 1000;

/// Control points of a validated easing curve, in fixed-point coordinates.
#[derive(Clone, Copy, Debug, PartialEq, Eq, Structural)]
pub struct CubicBezier {
    pub x1: i64,
    pub y1: i64,
    pub x2: i64,
    pub y2: i64,
}

/// The coordinates that form a valid easing curve: all four control
/// coordinates inside the unit square, so that the parametric x-coordinate is
/// non-decreasing (the curve is solvable for every x) and the output stays in
/// `[0, 1]`.
pub open spec fn valid_control_points(x1: int, y1: int, x2: int, y2: int) -> bool {
    &&& 0 <= x1 <= SCALE
    &&& 0 <= y1 <= SCALE
    &&& 0 <= x2 <= SCALE
    &&& 0 <= y2 <= SCALE
}

impl CubicBezier {
    pub open spec fn wf(self) -> bool {
        valid_control_points(self.x1 as int, self.y1 as int, self.x2 as int, self.y2 as int)
    }
}

/// Builds the easing curve through `(0,0)`, `(x1,y1)`, `(x2,y2)`, `(1,1)`,
/// rejecting control points that cannot form a curve solvable for x.
pub fn cubic_bezier(x1: i64, y1: i64, x2: i64, y2: i64) -> (r: Result<CubicBezier, AnimationError>)
    ensures
        r is Ok <==> valid_control_points(x1 as int, y1 as int, x2 as int, y2 as int),
        r is Ok ==> r->Ok_0 == (CubicBezier { x1, y1, x2, y2 }),
        r is Err ==> r->Err_0 == AnimationError::InvalidCurve,
{
    if 0 <= x1 && x1 <= SCALE && 0 <= y1 && y1 <= SCALE && 0 <= x2 && x2 <= SCALE && 0 <= y2
        && y2 <= SCALE {
        Ok(CubicBezier { x1, y1, x2, y2 })
    } else {
        Err(AnimationError::InvalidCurve)
    }
}

/// The cubic Bernstein polynomial of a coordinate of the curve, scaled by
/// `SCALE^3`: for parameter `t` in `[0, SCALE]` and control coordinates `c1`,
/// `c2`, the coordinate in fixed-point units is `bez_poly(c1, c2, t) /
/// CUBE_SCALE`. The endpoint coefficients are the curve's fixed endpoints 0
/// and 1.
pub open spec fn bez_poly(c1: int, c2: int, t: int) -> int {
    3 * c1 * t * (SCALE - t) * (SCALE - t) + 3 * c2 * t * t * (SCALE - t) + SCALE * t * t * t
}

/// For control coordinates and parameter inside the unit interval, the
/// Bernstein polynomial stays within `[0, SCALE^4]`, so the coordinate it
/// denotes stays within `[0, SCALE]`.
pub proof fn lemma_bez_poly_bounds(c1: int, c2: int, t: int)
    requires
        0 <= c1 <= SCALE,
        0 <= c2 <= SCALE,
        0 <= t <= SCALE,
    ensures
        0 <= bez_poly(c1, c2, t) <= SCALE * CUBE_SCALE,
{
    assert(3 * c1 * t * (SCALE - t) * (SCALE - t) + 3 * c2 * t * t * (SCALE - t) + SCALE * t * t
        * t >= 0) by (nonlinear_arith)
        requires
            0 <= c1,
            0 <= c2,
            0 <= t <= SCALE,
    ;
    assert(3 * c1 * t * (SCALE - t) * (SCALE - t) + 3 * c2 * t * t * (SCALE - t) + SCALE * t * t
        * t <= SCALE * (SCALE * SCALE * SCALE)) by (nonlinear_arith)
        requires
            0 <= c1 <= SCALE,
            0 <= c2 <= SCALE,
            0 <= t <= SCALE,
    ;
}

/// Evaluates [`bez_poly`] in executable code.
fn eval_poly(c1: i64, c2: i64, t: i64) -> (p: i64)
    requires
        0 <= c1 <= SCALE,
        0 <= c2 <= SCALE,
        0 <= t <= SCALE,
    ensures
        p == bez_poly(c1 as int, c2 as int, t as int),
        0 <= p <= SCALE * CUBE_SCALE,
{
    proof {
        lemma_bez_poly_bounds(c1 as int, c2 as int, t as int);
        assert(3 * c1 * t * (SCALE - t) * (SCALE - t) <= 3 * SCALE * SCALE * SCALE * SCALE)
            by (nonlinear_arith)
            requires
                0 <= c1 <= SCALE,
                0 <= t <= SCALE,
        ;
        assert(3 * c1 * t * (SCALE - t) >= 0 && 3 * c1 * t * (SCALE - t) <= 3 * SCALE * SCALE
            * SCALE) by (nonlinear_arith)
            requires
                0 <= c1 <= SCALE,
                0 <= t <= SCALE,
        ;
        assert(3 * c1 * t >= 0 && 3 * c1 * t <= 3 * SCALE * SCALE) by (nonlinear_arith)
            requires
                0 <= c1 <= SCALE,
                0 <= t <= SCALE,
        ;
        assert(3 * c2 * t * t * (SCALE - t) >= 0 && 3 * c2 * t * t * (SCALE - t) <= 3 * SCALE
            * SCALE * SCALE * SCALE) by (nonlinear_arith)
            requires
                0 <= c2 <= SCALE,
                0 <= t <= SCALE,
        ;
        assert(3 * c2 * t * t >= 0 && 3 * c2 * t * t <= 3 * SCALE * SCALE * SCALE)
            by (nonlinear_arith)
            requires
                0 <= c2 <= SCALE,
                0 <= t <= SCALE,
        ;
        assert(3 * c2 * t >= 0 && 3 * c2 * t <= 3 * SCALE * SCALE) by (nonlinear_arith)
            requires
                0 <= c2 <= SCALE,
                0 <= t <= SCALE,
        ;
        assert(SCALE * t * t * t >= 0 && SCALE * t * t * t <= SCALE * SCALE * SCALE * SCALE)
            by (nonlinear_arith)
            requires
                0 <= t <= SCALE,
        ;
        assert(SCALE * t * t >= 0 && SCALE * t * t <= SCALE * SCALE * SCALE) by (nonlinear_arith)
            requires
                0 <= t <= SCALE,
        ;
    }
    let a: i64 = 3 * c1 * t * (SCALE - t) * (SCALE - t);
    let b: i64 = 3 * c2 * t * t * (SCALE - t);
    let c: i64 = SCALE * t * t * t;
    a + b + c
}

/// The parameter in `[lo, hi]` at which the curve's x-coordinate polynomial
/// reaches `target` (scaled by `SCALE^3`), located by `fuel` bisection steps
/// and reported as the bracket's lower end.
pub open spec fn bisect_t(x1: int, x2: int, target: int, lo: int, hi: int, fuel: nat) -> int
    decreases fuel,
{
    if fuel == 0 {
        lo
    } else {
        let mid = (lo + hi) / 2;
        if bez_poly(x1, x2, mid) < target {
            bisect_t(x1, x2, target, mid, hi, (fuel - 1) as nat)
        } else {
            bisect_t(x1, x2, target, lo, mid, (fuel - 1) as nat)
        }
    }
}

/// Bisection never leaves the initial bracket.
pub proof fn lemma_bisect_in_range(x1: int, x2: int, target: int, lo: int, hi: int, fuel: nat)
    requires
        lo <= hi,
    ensures
        lo <= bisect_t(x1, x2, target, lo, hi, fuel) <= hi,
    decreases fuel,
{
    if fuel > 0 {
        let mid = (lo + hi) / 2;
        assert(lo <= mid <= hi) by (nonlinear_arith)
            requires
                lo <= hi,
                mid == (lo + hi) / 2,
        ;
        if bez_poly(x1, x2, mid) < target {
            lemma_bisect_in_range(x1, x2, target, mid, hi, (fuel - 1) as nat);
        } else {
            lemma_bisect_in_range(x1, x2, target, lo, mid, (fuel - 1) as nat);
        }
    }
}

/// Raising the target cannot move the bisection result left.
pub proof fn lemma_bisect_mono(x1: int, x2: int, g1: int, g2: int, lo: int, hi: int, fuel: nat)
    requires
        g1 <= g2,
        lo <= hi,
    ensures
        bisect_t(x1, x2, g1, lo, hi, fuel) <= bisect_t(x1, x2, g2, lo, hi, fuel),
    decreases fuel,
{
    if fuel > 0 {
        let mid = (lo + hi) / 2;
        assert(lo <= mid <= hi) by (nonlinear_arith)
            requires
                lo <= hi,
                mid == (lo + hi) / 2,
        ;
        if bez_poly(x1, x2, mid) < g1 {
            lemma_bisect_mono(x1, x2, g1, g2, mid, hi, (fuel - 1) as nat);
        } else if bez_poly(x1, x2, mid) >= g2 {
            lemma_bisect_mono(x1, x2, g1, g2, lo, mid, (fuel - 1) as nat);
        } else {
            lemma_bisect_in_range(x1, x2, g1, lo, mid, (fuel - 1) as nat);
            lemma_bisect_in_range(x1, x2, g2, mid, hi, (fuel - 1) as nat);
        }
    }
}

/// Executable bisection, mirroring [`bisect_t`].
fn bisect(x1: i64, x2: i64, target: i64, lo: i64, hi: i64, fuel: u32) -> (t: i64)
    requires
        0 <= x1 <= SCALE,
        0 <= x2 <= SCALE,
        0 <= lo <= hi <= SCALE,
    ensures
        t == bisect_t(x1 as int, x2 as int, target as int, lo as int, hi as int, fuel as nat),
        lo <= t <= hi,
    decreases fuel,
{
    proof {
        lemma_bisect_in_range(x1 as int, x2 as int, target as int, lo as int, hi as int,
            fuel as nat);
    }
    if fuel == 0 {
        lo
    } else {
        let mid = (((lo as u64) + (hi as u64)) / 2) as i64;
        assert(mid == (lo + hi) / 2);
        let p = eval_poly(x1, x2, mid);
        if p < target {
            bisect(x1, x2, target, mid, hi, fuel - 1)
        } else {
            bisect(x1, x2, target, lo, mid, fuel - 1)
        }
    }
}

/// The easing function of a valid curve, as a function of fixed-point x: exact
/// at the endpoints, and in between the y-coordinate of the curve at the
/// bisection-solved parameter.
pub open spec fn ease_value(x1: int, y1: int, x2: int, y2: int, x: int) -> int {
    if x <= 0 {
        0
    } else if x >= SCALE {
        SCALE as int
    } else {
        bez_poly(y1, y2, solved_t(x1, x2, x)) / (CUBE_SCALE as int)
    }
}

/// The curve parameter whose x-coordinate matches a fixed-point x, as located
/// by the bisection solver over the whole unit bracket.
pub open spec fn solved_t(x1: int, x2: int, x: int) -> int {
    bisect_t(x1, x2, x * CUBE_SCALE, 0, SCALE as int, BISECT_STEPS as nat)
}

/// The easing function maps the unit interval into the unit interval.
pub proof fn lemma_ease_value_bounds(x1: int, y1: int, x2: int, y2: int, x: int)
    requires
        valid_control_points(x1, y1, x2, y2),
    ensures
        0 <= ease_value(x1, y1, x2, y2, x) <= SCALE,
{
    if 0 < x < SCALE {
        let t = solved_t(x1, x2, x);
        lemma_bisect_in_range(x1, x2, x * CUBE_SCALE, 0, SCALE as int, BISECT_STEPS as nat);
        lemma_bez_poly_bounds(y1, y2, t);
        let p = bez_poly(y1, y2, t);
        vstd::arithmetic::div_mod::lemma_div_pos_is_pos(p, CUBE_SCALE as int);
        vstd::arithmetic::div_mod::lemma_div_is_ordered(p, SCALE * CUBE_SCALE, CUBE_SCALE as int);
        vstd::arithmetic::div_mod::lemma_div_by_multiple(SCALE as int, CUBE_SCALE as int);
    }
}

/// For the canonical ease-in-out control points the y-polynomial is
/// non-decreasing in the curve parameter.
proof fn lemma_ease_in_out_y_poly_mono(t1: int, t2: int)
    requires
        0 <= t1 <= t2 <= SCALE,
    ensures
        bez_poly(EASE_IN_OUT_Y1 as int, EASE_IN_OUT_Y2 as int, t1) <= bez_poly(
            EASE_IN_OUT_Y1 as int, EASE_IN_OUT_Y2 as int, t2),
{
    assert(3 * 0 * t1 * (1000 - t1) * (1000 - t1) + 3 * 1000 * t1 * t1 * (1000 - t1) + 1000 * t1
        * t1 * t1 <= 3 * 0 * t2 * (1000 - t2) * (1000 - t2) + 3 * 1000 * t2 * t2 * (1000 - t2)
        + 1000 * t2 * t2 * t2) by (nonlinear_arith)
        requires
            0 <= t1 <= t2 <= 1000,
    ;
}

/// Law: for the canonical ease-in-out control points, the easing function is
/// monotonically non-decreasing over the whole input range.
pub proof fn lemma_ease_in_out_monotonic(xa: int, xb: int)
    requires
        xa <= xb,
    ensures
        ease_value(EASE_IN_OUT_X1 as int, EASE_IN_OUT_Y1 as int, EASE_IN_OUT_X2 as int,
            EASE_IN_OUT_Y2 as int, xa) <= ease_value(EASE_IN_OUT_X1 as int, EASE_IN_OUT_Y1 as int,
            EASE_IN_OUT_X2 as int, EASE_IN_OUT_Y2 as int, xb),
{
    lemma_ease_value_bounds(EASE_IN_OUT_X1 as int, EASE_IN_OUT_Y1 as int, EASE_IN_OUT_X2 as int,
        EASE_IN_OUT_Y2 as int, xa);
    lemma_ease_value_bounds(EASE_IN_OUT_X1 as int, EASE_IN_OUT_Y1 as int, EASE_IN_OUT_X2 as int,
        EASE_IN_OUT_Y2 as int, xb);
    if 0 < xa && xb < SCALE {
        let ga = xa * CUBE_SCALE;
        let gb = xb * CUBE_SCALE;
        assert(ga <= gb) by (nonlinear_arith)
            requires
                xa <= xb,
                ga == xa * CUBE_SCALE,
                gb == xb * CUBE_SCALE,
        ;
        lemma_bisect_mono(EASE_IN_OUT_X1 as int, EASE_IN_OUT_X2 as int, ga, gb, 0, SCALE as int,
            BISECT_STEPS as nat);
        lemma_bisect_in_range(EASE_IN_OUT_X1 as int, EASE_IN_OUT_X2 as int, ga, 0, SCALE as int,
            BISECT_STEPS as nat);
        lemma_bisect_in_range(EASE_IN_OUT_X1 as int, EASE_IN_OUT_X2 as int, gb, 0, SCALE as int,
            BISECT_STEPS as nat);
        let ta = solved_t(EASE_IN_OUT_X1 as int, EASE_IN_OUT_X2 as int, xa);
        let tb = solved_t(EASE_IN_OUT_X1 as int, EASE_IN_OUT_X2 as int, xb);
        lemma_ease_in_out_y_poly_mono(ta, tb);
        vstd::arithmetic::div_mod::lemma_div_is_ordered(bez_poly(EASE_IN_OUT_Y1 as int,
            EASE_IN_OUT_Y2 as int, ta), bez_poly(EASE_IN_OUT_Y1 as int, EASE_IN_OUT_Y2 as int, tb),
            CUBE_SCALE as int);
    }
}

impl CubicBezier {
    /// Evaluates the easing function at a fixed-point x: exactly 0 at 0 and
    /// `SCALE` at `SCALE`, clamped outside the unit interval, and the curve's
    /// y at the solved parameter in between.
    pub fn evaluate(&self, x: i64) -> (y: i64)
        requires
            self.wf(),
        ensures
            y == ease_value(self.x1 as int, self.y1 as int, self.x2 as int, self.y2 as int,
                x as int),
            0 <= y <= SCALE,
            x <= 0 ==> y == 0,
            x >= SCALE ==> y == SCALE,
    {
        if x <= 0 {
            return 0;
        }
        if x >= SCALE {
            return SCALE;
        }
        proof {
            assert(0 <= x * CUBE_SCALE <= SCALE * CUBE_SCALE) by (nonlinear_arith)
                requires
                    0 <= x <= SCALE,
            ;
        }
        let target: i64 = x * CUBE_SCALE;
        let t = bisect(self.x1, self.x2, target, 0, SCALE, BISECT_STEPS);
        let num = eval_poly(self.y1, self.y2, t);
        proof {
            let p = bez_poly(self.y1 as int, self.y2 as int, t as int);
            vstd::arithmetic::div_mod::lemma_div_pos_is_pos(p, CUBE_SCALE as int);
            vstd::arithmetic::div_mod::lemma_div_is_ordered(p, SCALE * CUBE_SCALE,
                CUBE_SCALE as int);
            vstd::arithmetic::div_mod::lemma_div_by_multiple(SCALE as int, CUBE_SCALE as int);
        }
        let y = ((num as u64) / (CUBE_SCALE as u64)) as i64;
        y
    }
}

} // verus!
