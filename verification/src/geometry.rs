//! Fixed-point planar geometry: vectors, boxes, and the slab-method
//! intersection of an infinite line with an axis-aligned box.
//!
//! Coordinates are fixed-point numbers with `FIXED_ONE` as one unit, held in
//! `i64`. Every operation has an exact integer meaning, stated over
//! truncating division, so clipping is bit-for-bit deterministic.

use vstd::prelude::*;
use vstd::arithmetic::div_mod::{lemma_div_is_ordered, lemma_div_pos_is_pos};

verus! {

/// Fixed-point scale: the representation of 1.0.
pub const FIXED_ONE: i64 = 65536;

/// Largest magnitude of a point or box coordinate the geometry accepts.
pub const COORD_BOUND: i64 = 0x1000_0000_0000;

/// Largest magnitude of a direction-vector component; unit directions use
/// the `FIXED_ONE` scale and stay well inside this.
pub const DIR_BOUND: i64 = 0x2_0000;

/// Largest magnitude of a line parameter produced by the slab method.
pub const PARAM_BOUND: i64 = 0x2000_0000_0000_0000;

/// Largest magnitude of a clipped endpoint coordinate.
pub const POINT_BOUND: i64 = 0x4001_0000_0000_0000;

/// A planar vector or point in fixed-point coordinates.
#[derive(Clone, Copy, Debug, PartialEq, Eq, Structural, Hash)]
pub struct Vec2 {
    pub x: i64,
    pub y: i64,
}

impl Vec2 {
    /// Both coordinates are within the accepted point range.
    pub open spec fn in_coord_range(self) -> bool {
        -COORD_BOUND <= self.x <= COORD_BOUND && -COORD_BOUND <= self.y <= COORD_BOUND
    }

    /// Both components are within the accepted direction range.
    pub open spec fn is_small_dir(self) -> bool {
        -DIR_BOUND <= self.x <= DIR_BOUND && -DIR_BOUND <= self.y <= DIR_BOUND
    }
}

/// An axis-aligned box given by its minimum and maximum corner.
#[derive(Clone, Copy, Debug, PartialEq, Eq, Structural, Hash)]
pub struct Box2 {
    pub min: Vec2,
    pub max: Vec2,
}

impl Box2 {
    /// Corners are ordered and within the accepted range.
    pub open spec fn wf(self) -> bool {
        self.min.in_coord_range() && self.max.in_coord_range() && self.min.x <= self.max.x
            && self.min.y <= self.max.y
    }

    /// The point lies inside the box, boundary included.
    pub open spec fn spec_contains(self, p: Vec2) -> bool {
        self.min.x <= p.x <= self.max.x && self.min.y <= p.y <= self.max.y
    }

    /// Tests whether the point lies inside the box, boundary included.
    pub fn contains(&self, p: &Vec2) -> (r: bool)
        ensures
            r == self.spec_contains(*p),
    {
        self.min.x <= p.x && p.x <= self.max.x && self.min.y <= p.y && p.y <= self.max.y
    }
}

/// Division that rounds toward zero, as the machine division does.
pub open spec fn spec_div_trunc(a: int, b: int) -> int {
    if a >= 0 {
        a / b
    } else {
        -((-a) / b)
    }
}

/// The magnitude of an integer.
pub open spec fn abs_i(a: int) -> int {
    if a >= 0 {
        a
    } else {
        -a
    }
}

/// Truncating division never grows the magnitude of its dividend.
pub proof fn lemma_div_trunc_abs_le(a: int, b: int)
    requires
        b != 0,
    ensures
        -abs_i(a) <= spec_div_trunc(a, b) <= abs_i(a),
{
    assert(a >= 0 && b >= 1 ==> 0 <= a / b <= a) by (nonlinear_arith);
    assert(a >= 0 && b <= -1 ==> -a <= a / b <= 0) by (nonlinear_arith);
    assert(-a >= 0 && b >= 1 ==> 0 <= (-a) / b <= -a) by (nonlinear_arith);
    assert(-a >= 0 && b <= -1 ==> -(-a) <= (-a) / b <= 0) by (nonlinear_arith);
}

/// A truncating quotient by a positive divisor is bounded by the quotient of
/// any bound on the dividend.
pub proof fn lemma_div_trunc_quot_bound(a: int, b: int, m: int)
    requires
        b > 0,
        0 <= m,
        -m <= a <= m,
    ensures
        -(m / b) <= spec_div_trunc(a, b) <= m / b,
{
    lemma_div_pos_is_pos(m, b);
    if a >= 0 {
        lemma_div_pos_is_pos(a, b);
        lemma_div_is_ordered(a, m, b);
    } else {
        lemma_div_pos_is_pos(-a, b);
        lemma_div_is_ordered(-a, m, b);
    }
}

/// The sorted pair of slab parameters of one axis: where the line
/// `o + t * v` meets the two planes at `mn` and `mx`, in fixed-point `t`.
pub open spec fn spec_slab_axis(mn: int, mx: int, o: int, v: int) -> (int, int) {
    let t0 = spec_div_trunc((mn - o) * (FIXED_ONE as int), v);
    let t1 = spec_div_trunc((mx - o) * (FIXED_ONE as int), v);
    if t0 > t1 {
        (t1, t0)
    } else {
        (t0, t1)
    }
}

/// Computes one axis' sorted slab parameters.
fn slab_axis(mn: i64, mx: i64, o: i64, v: i64) -> (r: (i64, i64))
    requires
        v != 0,
        -DIR_BOUND <= v <= DIR_BOUND,
        -COORD_BOUND <= mn <= COORD_BOUND,
        -COORD_BOUND <= mx <= COORD_BOUND,
        -COORD_BOUND <= o <= COORD_BOUND,
    ensures
        (r.0 as int, r.1 as int) == spec_slab_axis(mn as int, mx as int, o as int, v as int),
        -PARAM_BOUND <= r.0 <= PARAM_BOUND,
        -PARAM_BOUND <= r.1 <= PARAM_BOUND,
        r.0 <= r.1,
{
    proof {
        lemma_div_trunc_abs_le((mn - o) * (FIXED_ONE as int), v as int);
        lemma_div_trunc_abs_le((mx - o) * (FIXED_ONE as int), v as int);
    }
    let t0 = ((mn - o) * 65536) / v;
    let t1 = ((mx - o) * 65536) / v;
    if t0 > t1 {
        (t1, t0)
    } else {
        (t0, t1)
    }
}

/// The point `o + t * v` in fixed-point arithmetic: each component adds the
/// truncated product `v * t / FIXED_ONE` to the origin.
pub open spec fn spec_point_along(o: Vec2, v: Vec2, t: int) -> (int, int) {
    (
        o.x + spec_div_trunc(v.x * t, FIXED_ONE as int),
        o.y + spec_div_trunc(v.y * t, FIXED_ONE as int),
    )
}

/// Computes the point `o + t * v`.
fn point_along(o: &Vec2, v: &Vec2, t: i64) -> (r: Vec2)
    requires
        o.in_coord_range(),
        v.is_small_dir(),
        -PARAM_BOUND <= t <= PARAM_BOUND,
    ensures
        (r.x as int, r.y as int) == spec_point_along(*o, *v, t as int),
        -POINT_BOUND <= r.x <= POINT_BOUND,
        -POINT_BOUND <= r.y <= POINT_BOUND,
{
    proof {
        assert(-0x40000000000000000000 <= (v.x as int) * (t as int) <= 0x40000000000000000000)
            by (nonlinear_arith)
            requires
                -DIR_BOUND <= v.x <= DIR_BOUND,
                -PARAM_BOUND <= t <= PARAM_BOUND,
        ;
        assert(-0x40000000000000000000 <= (v.y as int) * (t as int) <= 0x40000000000000000000)
            by (nonlinear_arith)
            requires
                -DIR_BOUND <= v.y <= DIR_BOUND,
                -PARAM_BOUND <= t <= PARAM_BOUND,
        ;
        lemma_div_trunc_quot_bound((v.x as int) * (t as int), 65536, 0x40000000000000000000);
        lemma_div_trunc_quot_bound((v.y as int) * (t as int), 65536, 0x40000000000000000000);
    }
    let qx = ((v.x as i128) * (t as i128)) / 65536;
    let qy = ((v.y as i128) * (t as i128)) / 65536;
    Vec2 { x: o.x + (qx as i64), y: o.y + (qy as i64) }
}

/// The clipped endpoints, as mathematical pairs, of an intersection result.
pub open spec fn seg_view(r: Option<(Vec2, Vec2)>) -> Option<((int, int), (int, int))> {
    match r {
        Option::None => Option::None,
        Option::Some((p1, p2)) => Option::Some(
            ((p1.x as int, p1.y as int), (p2.x as int, p2.y as int)),
        ),
    }
}

/// Both endpoints of an intersection result, if any, are within the clipped
/// point range.
pub open spec fn endpoints_bounded(r: Option<(Vec2, Vec2)>) -> bool {
    match r {
        Option::None => true,
        Option::Some((p1, p2)) => -POINT_BOUND <= p1.x <= POINT_BOUND && -POINT_BOUND <= p1.y
            <= POINT_BOUND && -POINT_BOUND <= p2.x <= POINT_BOUND && -POINT_BOUND <= p2.y
            <= POINT_BOUND,
    }
}

/// Slab-method intersection of the infinite line `{ o + t * v }` with the
/// box `b`: per axis the sorted parameter interval is computed (an axis with
/// a zero direction component constrains nothing if the origin lies between
/// its planes, and everything otherwise); the line meets the box exactly
/// when the intervals overlap, and the clipped endpoints sit at the largest
/// entry and smallest exit parameter. A zero direction vector never meets
/// the box.
pub open spec fn spec_box_intersection(b: Box2, o: Vec2, v: Vec2) -> Option<
    ((int, int), (int, int)),
> {
    if v.x == 0 && v.y == 0 {
        Option::None
    } else if v.x == 0 {
        if o.x < b.min.x || o.x > b.max.x {
            Option::None
        } else {
            let t = spec_slab_axis(b.min.y as int, b.max.y as int, o.y as int, v.y as int);
            Option::Some((spec_point_along(o, v, t.0), spec_point_along(o, v, t.1)))
        }
    } else if v.y == 0 {
        if o.y < b.min.y || o.y > b.max.y {
            Option::None
        } else {
            let t = spec_slab_axis(b.min.x as int, b.max.x as int, o.x as int, v.x as int);
            Option::Some((spec_point_along(o, v, t.0), spec_point_along(o, v, t.1)))
        }
    } else {
        let tx = spec_slab_axis(b.min.x as int, b.max.x as int, o.x as int, v.x as int);
        let ty = spec_slab_axis(b.min.y as int, b.max.y as int, o.y as int, v.y as int);
        if tx.0 > ty.1 || ty.0 > tx.1 {
            Option::None
        } else {
            let tmin = if ty.0 > tx.0 {
                ty.0
            } else {
                tx.0
            };
            let tmax = if ty.1 < tx.1 {
                ty.1
            } else {
                tx.1
            };
            Option::Some((spec_point_along(o, v, tmin), spec_point_along(o, v, tmax)))
        }
    }
}

/// Clips the infinite line `{ o + t * v }` to the box `b` by the slab
/// method; returns the two clipped endpoints, or nothing when the line
/// misses the box or the direction is degenerate.
pub fn box_intersection(b: &Box2, o: &Vec2, v: &Vec2) -> (r: Option<(Vec2, Vec2)>)
    requires
        b.wf(),
        o.in_coord_range(),
        v.is_small_dir(),
    ensures
        seg_view(r) == spec_box_intersection(*b, *o, *v),
        v.x == 0 && v.y == 0 ==> r is None,
        endpoints_bounded(r),
{
    if v.x == 0 && v.y == 0 {
        return None;
    }
    if v.x == 0 {
        if o.x < b.min.x || o.x > b.max.x {
            return None;
        }
        let t = slab_axis(b.min.y, b.max.y, o.y, v.y);
        let p1 = point_along(o, v, t.0);
        let p2 = point_along(o, v, t.1);
        Some((p1, p2))
    } else if v.y == 0 {
        if o.y < b.min.y || o.y > b.max.y {
            return None;
        }
        let t = slab_axis(b.min.x, b.max.x, o.x, v.x);
        let p1 = point_along(o, v, t.0);
        let p2 = point_along(o, v, t.1);
        Some((p1, p2))
    } else {
        let tx = slab_axis(b.min.x, b.max.x, o.x, v.x);
        let ty = slab_axis(b.min.y, b.max.y, o.y, v.y);
        if tx.0 > ty.1 || ty.0 > tx.1 {
            return None;
        }
        let tmin = if ty.0 > tx.0 {
            ty.0
        } else {
            tx.0
        };
        let tmax = if ty.1 < tx.1 {
            ty.1
        } else {
            tx.1
        };
        let p1 = point_along(o, v, tmin);
        let p2 = point_along(o, v, tmax);
        Some((p1, p2))
    }
}

} // verus!
