//! The hatch line generator and the layer aggregator.
//!
//! For one block, the generator walks outward from a jittered origin along a
//! perpendicular of the block's direction vector, in steps of the line
//! spacing; each candidate line through the walk point is clipped to the
//! block's bounding box by the slab method, successful strokes alternate
//! between the two pens of the matched blend, and both endpoints are
//! translated into global image coordinates. The walk of one side stops once
//! a walk point leaves a safety bound of five block sizes; the opposite
//! perpendicular is walked with its own alternation state. Finished strokes
//! are grouped into one layer per pen, and the blank-canvas pen is excluded
//! from the visible layers.

use vstd::prelude::*;
use vstd::arithmetic::div_mod::{
    lemma_div_is_ordered,
    lemma_div_multiples_vanish,
    lemma_fundamental_div_mod,
    lemma_mod_bound,
};
use crate::colormapper::InkJoyGelPen;
use crate::colormapper::InkJoyGelPenBlend;
use crate::colormapper::ColoredPen;
use crate::geometry::{
    Vec2,
    Box2,
    box_intersection,
    spec_box_intersection,
    spec_div_trunc,
};
use crate::dilution::DilutionRatio;

verus! {

/// Smallest accepted line spacing, a sixteenth of a pixel in fixed point.
pub const MIN_SPACING_FP: i64 = 4096;

/// Largest accepted line spacing, 32 pixels in fixed point.
pub const MAX_SPACING_FP: i64 = 0x20_0000;

/// Largest accepted block extent, 8192 pixels in fixed point.
pub const MAX_BLOCK_FP: i64 = 0x2000_0000;

/// Smallest accepted block extent, one pixel in fixed point.
pub const MIN_BLOCK_FP: i64 = 65536;

/// Largest magnitude of a block's global offset.
pub const MAX_OFFSET_FP: i64 = 0x1000_0000_0000;

/// Recursion budget of the walk mirror; far above the proven walk bound.
pub const WALK_FUEL: u64 = 0x100_0000_0000;

/// One drawable stroke: two endpoints in global fixed-point coordinates,
/// tagged with the pen that renders it.
#[derive(Clone, Copy, Debug, PartialEq, Eq, Structural, Hash)]
pub struct LineSegment {
    pub x1: i64,
    pub y1: i64,
    pub x2: i64,
    pub y2: i64,
    pub pen: InkJoyGelPen,
}

/// A direction's perpendicular components stay in the unit range and one of
/// them is at least half a unit long.
pub open spec fn good_perp(p: Vec2) -> bool {
    &&& -65536 <= p.x <= 65536
    &&& -65536 <= p.y <= 65536
    &&& (p.x >= 32768 || p.x <= -32768 || p.y >= 32768 || p.y <= -32768)
}

/// The walk point of step `k`: the origin displaced by `k` spacings along
/// the perpendicular, with one truncating division at the end.
pub open spec fn spec_walk_point(origin: Vec2, perp: Vec2, spacing: int, k: int) -> (int, int) {
    (
        origin.x + spec_div_trunc(perp.x * spacing * k, 0x1_0000_0000),
        origin.y + spec_div_trunc(perp.y * spacing * k, 0x1_0000_0000),
    )
}

/// A step count whose walk point still lies inside the safety bound of five
/// block sizes is at most two hundred block sizes: the walk's big
/// perpendicular component pushes the point at least `k / 32` units out.
proof fn lemma_axis_k_bound(oc: int, pc: int, spacing: int, bnd: int, j: int)
    requires
        j >= 0,
        4096 <= spacing,
        pc >= 32768 || pc <= -32768,
        -65536 <= pc <= 65536,
        0 <= oc <= bnd,
        65536 <= bnd,
        -5 * bnd <= oc + spec_div_trunc(pc * spacing * j, 0x1_0000_0000) <= 5 * bnd,
    ensures
        j <= 200 * bnd,
{
    let q = j / 32;
    lemma_fundamental_div_mod(j, 32);
    lemma_mod_bound(j, 32);
    let a = pc * spacing * j;
    if pc >= 32768 {
        assert(a >= 0x1_0000_0000 * q && a >= 0) by (nonlinear_arith)
            requires
                pc >= 32768,
                spacing >= 4096,
                j >= 0,
                a == pc * spacing * j,
                j == 32 * q + j % 32,
                0 <= j % 32 < 32,
                q >= 0,
        ;
        lemma_div_is_ordered(0x1_0000_0000 * q, a, 0x1_0000_0000);
        lemma_div_multiples_vanish(q, 0x1_0000_0000);
        assert(spec_div_trunc(a, 0x1_0000_0000) >= q);
    } else {
        assert(-a >= 0x1_0000_0000 * q && -a >= 0) by (nonlinear_arith)
            requires
                pc <= -32768,
                spacing >= 4096,
                j >= 0,
                a == pc * spacing * j,
                j == 32 * q + j % 32,
                0 <= j % 32 < 32,
                q >= 0,
        ;
        if a >= 0 {
            assert(0x1_0000_0000 * q <= 0);
            assert(q == 0);
        } else {
            lemma_div_is_ordered(0x1_0000_0000 * q, -a, 0x1_0000_0000);
            lemma_div_multiples_vanish(q, 0x1_0000_0000);
            assert(spec_div_trunc(a, 0x1_0000_0000) <= -q);
            assert(q <= 6 * bnd);
        }
    }
}

/// Computes the walk point of step `k`.
fn walk_point(origin: &Vec2, perp: &Vec2, spacing: i64, k: u64) -> (r: Vec2)
    requires
        0 <= origin.x <= MAX_BLOCK_FP,
        0 <= origin.y <= MAX_BLOCK_FP,
        -65536 <= perp.x <= 65536,
        -65536 <= perp.y <= 65536,
        MIN_SPACING_FP <= spacing <= MAX_SPACING_FP,
        k <= 0x40_0000_0000,
    ensures
        r.x as int == spec_walk_point(*origin, *perp, spacing as int, k as int).0,
        r.y as int == spec_walk_point(*origin, *perp, spacing as int, k as int).1,
        -0x1000_0000_0000 <= r.x <= 0x1000_0000_0000,
        -0x1000_0000_0000 <= r.y <= 0x1000_0000_0000,
{
    proof {
        assert(-0x20_0000_0000 <= (perp.x as int) * (spacing as int) <= 0x20_0000_0000
            && -0x20_0000_0000 <= (perp.y as int) * (spacing as int) <= 0x20_0000_0000
            && -0x800_0000_0000_0000_0000 <= (perp.x as int) * (spacing as int) * (k as int)
            <= 0x800_0000_0000_0000_0000 && -0x800_0000_0000_0000_0000 <= (perp.y as int)
            * (spacing as int) * (k as int) <= 0x800_0000_0000_0000_0000) by (nonlinear_arith)
            requires
                -65536 <= perp.x <= 65536,
                -65536 <= perp.y <= 65536,
                0 < spacing <= 0x20_0000,
                0 <= k <= 0x40_0000_0000,
        ;
        crate::geometry::lemma_div_trunc_quot_bound(
            (perp.x as int) * (spacing as int) * (k as int),
            0x1_0000_0000,
            0x800_0000_0000_0000_0000,
        );
        crate::geometry::lemma_div_trunc_quot_bound(
            (perp.y as int) * (spacing as int) * (k as int),
            0x1_0000_0000,
            0x800_0000_0000_0000_0000,
        );
    }
    let qx = ((perp.x as i128) * (spacing as i128) * (k as i128)) / 0x1_0000_0000;
    let qy = ((perp.y as i128) * (spacing as i128) * (k as i128)) / 0x1_0000_0000;
    Vec2 { x: origin.x + (qx as i64), y: origin.y + (qy as i64) }
}

/// The stroke cut from candidate step `k`, if the candidate line meets the
/// block box, with endpoints translated by the block's global offset and
/// drawn with pen `a` or pen `b` of the blend by the alternation state.
pub open spec fn spec_stroke_at(
    blend: InkJoyGelPenBlend,
    origin: Vec2,
    perp: Vec2,
    v: Vec2,
    spacing: int,
    bw: int,
    bh: int,
    gx: int,
    gy: int,
    k: int,
    use_a: bool,
) -> Option<LineSegment> {
    let cur = spec_walk_point(origin, perp, spacing, k);
    let o = Vec2 { x: cur.0 as i64, y: cur.1 as i64 };
    let b = Box2 {
        min: Vec2 { x: 0, y: 0 },
        max: Vec2 { x: bw as i64, y: bh as i64 },
    };
    match spec_box_intersection(b, o, v) {
        Option::None => Option::None,
        Option::Some((p1, p2)) => Option::Some(
            LineSegment {
                x1: (p1.0 + gx) as i64,
                y1: (p1.1 + gy) as i64,
                x2: (p2.0 + gx) as i64,
                y2: (p2.1 + gy) as i64,
                pen: if use_a {
                    blend.pen_a
                } else {
                    blend.pen_b
                },
            },
        ),
    }
}

/// The strokes of one walk from step `k` on: while the walk point of the
/// previous step is still inside the safety bound of five block sizes, the
/// candidate of step `k` is clipped; a successful stroke flips the
/// alternation state, and the walk goes on with step `k + 1`.
pub open spec fn spec_hatch_walk(
    blend: InkJoyGelPenBlend,
    origin: Vec2,
    perp: Vec2,
    v: Vec2,
    spacing: int,
    bw: int,
    bh: int,
    gx: int,
    gy: int,
    k: int,
    use_a: bool,
    fuel: nat,
) -> Seq<LineSegment>
    decreases fuel,
{
    if fuel == 0 {
        Seq::empty()
    } else {
        let prev = if k == 0 {
            (origin.x as int, origin.y as int)
        } else {
            spec_walk_point(origin, perp, spacing, k - 1)
        };
        if !(-5 * bw <= prev.0 <= 5 * bw && -5 * bh <= prev.1 <= 5 * bh) {
            Seq::empty()
        } else {
            match spec_stroke_at(blend, origin, perp, v, spacing, bw, bh, gx, gy, k, use_a) {
                Option::None => spec_hatch_walk(
                    blend,
                    origin,
                    perp,
                    v,
                    spacing,
                    bw,
                    bh,
                    gx,
                    gy,
                    k + 1,
                    use_a,
                    (fuel - 1) as nat,
                ),
                Option::Some(seg) => seq![seg] + spec_hatch_walk(
                    blend,
                    origin,
                    perp,
                    v,
                    spacing,
                    bw,
                    bh,
                    gx,
                    gy,
                    k + 1,
                    !use_a,
                    (fuel - 1) as nat,
                ),
            }
        }
    }
}

/// Walks one perpendicular direction, appending every clipped stroke.
#[verifier::rlimit(60)]
fn hatch_walk(
    out: &mut Vec<LineSegment>,
    blend: &InkJoyGelPenBlend,
    origin: &Vec2,
    perp: &Vec2,
    v: &Vec2,
    spacing: i64,
    bw: i64,
    bh: i64,
    gx: i64,
    gy: i64,
    start_k: u64,
    start_with_a: bool,
)
    requires
        good_perp(*perp),
        v.is_small_dir(),
        MIN_SPACING_FP <= spacing <= MAX_SPACING_FP,
        MIN_BLOCK_FP <= bw <= MAX_BLOCK_FP,
        MIN_BLOCK_FP <= bh <= MAX_BLOCK_FP,
        0 <= origin.x <= bw,
        0 <= origin.y <= bh,
        -MAX_OFFSET_FP <= gx <= MAX_OFFSET_FP,
        -MAX_OFFSET_FP <= gy <= MAX_OFFSET_FP,
        start_k <= 1,
    ensures
        final(out)@ == old(out)@ + spec_hatch_walk(
            *blend,
            *origin,
            *perp,
            *v,
            spacing as int,
            bw as int,
            bh as int,
            gx as int,
            gy as int,
            start_k as int,
            start_with_a,
            WALK_FUEL as nat,
        ),
{
    let mut k: u64 = start_k;
    let mut use_a: bool = start_with_a;
    let mut o: Vec2 = *origin;
    let ghost mut fuel: nat = WALK_FUEL as nat;
    let ghost mut done: Seq<LineSegment> = Seq::empty();
    let bbox = Box2 { min: Vec2 { x: 0, y: 0 }, max: Vec2 { x: bw, y: bh } };
    proof {
        assert(out@ =~= old(out)@ + done);
    }
    while o.x >= -(5 * bw) && o.x <= 5 * bw && o.y >= -(5 * bh) && o.y <= 5 * bh
        invariant
            good_perp(*perp),
            v.is_small_dir(),
            MIN_SPACING_FP <= spacing <= MAX_SPACING_FP,
            MIN_BLOCK_FP <= bw <= MAX_BLOCK_FP,
            MIN_BLOCK_FP <= bh <= MAX_BLOCK_FP,
            0 <= origin.x <= bw,
            0 <= origin.y <= bh,
            -MAX_OFFSET_FP <= gx <= MAX_OFFSET_FP,
            -MAX_OFFSET_FP <= gy <= MAX_OFFSET_FP,
            bbox == (Box2 { min: Vec2 { x: 0, y: 0 }, max: Vec2 { x: bw, y: bh } }),
            start_k <= 1,
            start_k <= k,
            k <= 200 * (bw + bh) + 2,
            o.x as int == (if k == 0 {
                origin.x as int
            } else {
                spec_walk_point(*origin, *perp, spacing as int, k - 1).0
            }),
            o.y as int == (if k == 0 {
                origin.y as int
            } else {
                spec_walk_point(*origin, *perp, spacing as int, k - 1).1
            }),
            -0x1000_0000_0000 <= o.x <= 0x1000_0000_0000,
            -0x1000_0000_0000 <= o.y <= 0x1000_0000_0000,
            fuel == WALK_FUEL - (k - start_k),
            out@ == old(out)@ + done,
            spec_hatch_walk(
                *blend,
                *origin,
                *perp,
                *v,
                spacing as int,
                bw as int,
                bh as int,
                gx as int,
                gy as int,
                start_k as int,
                start_with_a,
                WALK_FUEL as nat,
            ) == done + spec_hatch_walk(
                *blend,
                *origin,
                *perp,
                *v,
                spacing as int,
                bw as int,
                bh as int,
                gx as int,
                gy as int,
                k as int,
                use_a,
                fuel,
            ),
        decreases 200 * (bw + bh) + 2 - k,
    {
        proof {
            if k > start_k {
                if perp.x >= 32768 || perp.x <= -32768 {
                    assert(o.x as int == origin.x + spec_div_trunc(
                        (perp.x as int) * (spacing as int) * (k - 1),
                        0x1_0000_0000,
                    ));
                    lemma_axis_k_bound(
                        origin.x as int,
                        perp.x as int,
                        spacing as int,
                        bw as int,
                        k - 1,
                    );
                    assert(k - 1 <= 200 * bw);
                } else {
                    assert(o.y as int == origin.y + spec_div_trunc(
                        (perp.y as int) * (spacing as int) * (k - 1),
                        0x1_0000_0000,
                    ));
                    lemma_axis_k_bound(
                        origin.y as int,
                        perp.y as int,
                        spacing as int,
                        bh as int,
                        k - 1,
                    );
                    assert(k - 1 <= 200 * bh);
                }
            }
            assert(k <= 200 * (bw + bh) + 1);
        }
        let ok = walk_point(origin, perp, spacing, k);
        let res = box_intersection(&bbox, &ok, v);
        let ghost cur = spec_walk_point(*origin, *perp, spacing as int, k as int);
        let ghost fuel_in = fuel;
        let ghost done_in = done;
        let ghost use_a_in = use_a;
        proof {
            assert(ok == (Vec2 { x: cur.0 as i64, y: cur.1 as i64 }));
        }
        match res {
            Some((p1, p2)) => {
                let pen = if use_a {
                    blend.pen_a
                } else {
                    blend.pen_b
                };
                let seg = LineSegment {
                    x1: p1.x + gx,
                    y1: p1.y + gy,
                    x2: p2.x + gx,
                    y2: p2.y + gy,
                    pen,
                };
                proof {
                    assert(spec_stroke_at(
                        *blend,
                        *origin,
                        *perp,
                        *v,
                        spacing as int,
                        bw as int,
                        bh as int,
                        gx as int,
                        gy as int,
                        k as int,
                        use_a,
                    ) == Option::Some(seg));
                }
                out.push(seg);
                use_a = !use_a;
                proof {
                    fuel = (fuel - 1) as nat;
                    done = done.push(seg);
                    assert(out@ =~= old(out)@ + done);
                    assert(done_in + (seq![seg] + spec_hatch_walk(
                        *blend,
                        *origin,
                        *perp,
                        *v,
                        spacing as int,
                        bw as int,
                        bh as int,
                        gx as int,
                        gy as int,
                        k + 1,
                        !use_a_in,
                        fuel,
                    )) =~= done + spec_hatch_walk(
                        *blend,
                        *origin,
                        *perp,
                        *v,
                        spacing as int,
                        bw as int,
                        bh as int,
                        gx as int,
                        gy as int,
                        k + 1,
                        !use_a_in,
                        fuel,
                    ));
                }
            },
            None => {
                proof {
                    assert(spec_stroke_at(
                        *blend,
                        *origin,
                        *perp,
                        *v,
                        spacing as int,
                        bw as int,
                        bh as int,
                        gx as int,
                        gy as int,
                        k as int,
                        use_a,
                    ) is None);
                    fuel = (fuel - 1) as nat;
                }
            },
        }
        o = ok;
        k = k + 1;
    }
    proof {
        assert(spec_hatch_walk(
            *blend,
            *origin,
            *perp,
            *v,
            spacing as int,
            bw as int,
            bh as int,
            gx as int,
            gy as int,
            k as int,
            use_a,
            fuel,
        ) =~= Seq::<LineSegment>::empty());
        assert(out@ =~= old(out)@ + spec_hatch_walk(
            *blend,
            *origin,
            *perp,
            *v,
            spacing as int,
            bw as int,
            bh as int,
            gx as int,
            gy as int,
            start_k as int,
            start_with_a,
            WALK_FUEL as nat,
        ));
    }
}

/// The perpendicular of `v` turned a quarter circle counterclockwise.
pub open spec fn spec_rot90(v: Vec2) -> Vec2 {
    Vec2 { x: (-v.y) as i64, y: v.x }
}

/// The perpendicular of `v` turned a quarter circle clockwise.
pub open spec fn spec_rot270(v: Vec2) -> Vec2 {
    Vec2 { x: v.y, y: (-v.x) as i64 }
}

/// Line spacing chosen for a dilution: lighter blocks get wider spacing,
/// scaled linearly between the two configured bounds.
pub open spec fn spec_line_spacing(numer: int, min_spacing: int, max_spacing: int) -> int {
    (numer * (max_spacing - min_spacing)) / 200 + min_spacing
}

/// Computes the line spacing of a block from its dilution ratio.
pub fn line_spacing(d: &DilutionRatio, min_spacing: i64, max_spacing: i64) -> (r: i64)
    requires
        d.wf(),
        MIN_SPACING_FP <= min_spacing <= max_spacing <= MAX_SPACING_FP,
    ensures
        r == spec_line_spacing(d.numer as int, min_spacing as int, max_spacing as int),
        min_spacing <= r <= max_spacing,
{
    let delta = max_spacing - min_spacing;
    let n = d.numer as i64;
    proof {
        assert(0 <= (n as int) * (delta as int) <= 200 * (delta as int)) by (nonlinear_arith)
            requires
                0 <= n < 200,
                0 <= delta,
        ;
        lemma_div_is_ordered((n as int) * (delta as int), 200 * (delta as int), 200);
        lemma_div_multiples_vanish(delta as int, 200);
        vstd::arithmetic::div_mod::lemma_div_pos_is_pos((n as int) * (delta as int), 200);
    }
    (n * delta) / 200 + min_spacing
}

/// All the strokes of one block: the walk along the counterclockwise
/// perpendicular starting at step zero with pen `a`, followed by the walk
/// along the clockwise perpendicular starting at step one with pen `b`, each
/// with its own alternation state.
pub open spec fn spec_hatch_block(
    blend: InkJoyGelPenBlend,
    origin: Vec2,
    v: Vec2,
    spacing: int,
    bw: int,
    bh: int,
    gx: int,
    gy: int,
) -> Seq<LineSegment> {
    spec_hatch_walk(
        blend,
        origin,
        spec_rot90(v),
        v,
        spacing,
        bw,
        bh,
        gx,
        gy,
        0,
        true,
        WALK_FUEL as nat,
    ) + spec_hatch_walk(
        blend,
        origin,
        spec_rot270(v),
        v,
        spacing,
        bw,
        bh,
        gx,
        gy,
        1,
        false,
        WALK_FUEL as nat,
    )
}

/// Generates the strokes of one block, appending them to `out`.
pub fn hatch_block(
    out: &mut Vec<LineSegment>,
    blend: &InkJoyGelPenBlend,
    origin: &Vec2,
    v: &Vec2,
    spacing: i64,
    bw: i64,
    bh: i64,
    gx: i64,
    gy: i64,
)
    requires
        crate::field::near_unit(*v),
        MIN_SPACING_FP <= spacing <= MAX_SPACING_FP,
        MIN_BLOCK_FP <= bw <= MAX_BLOCK_FP,
        MIN_BLOCK_FP <= bh <= MAX_BLOCK_FP,
        0 <= origin.x <= bw,
        0 <= origin.y <= bh,
        -MAX_OFFSET_FP <= gx <= MAX_OFFSET_FP,
        -MAX_OFFSET_FP <= gy <= MAX_OFFSET_FP,
    ensures
        final(out)@ == old(out)@ + spec_hatch_block(
            *blend,
            *origin,
            *v,
            spacing as int,
            bw as int,
            bh as int,
            gx as int,
            gy as int,
        ),
{
    proof {
        crate::field::lemma_near_unit_component(*v);
    }
    let perp1 = Vec2 { x: -v.y, y: v.x };
    let perp2 = Vec2 { x: v.y, y: -v.x };
    hatch_walk(out, blend, origin, &perp1, v, spacing, bw, bh, gx, gy, 0, true);
    hatch_walk(out, blend, origin, &perp2, v, spacing, bw, bh, gx, gy, 1, false);
    proof {
        assert(out@ =~= old(out)@ + spec_hatch_block(
            *blend,
            *origin,
            *v,
            spacing as int,
            bw as int,
            bh as int,
            gx as int,
            gy as int,
        ));
    }
}

/// The strokes of `s` drawn with pen number `k`, in their original order.
pub open spec fn spec_filter_pen(s: Seq<LineSegment>, k: int) -> Seq<LineSegment>
    decreases s.len(),
{
    if s.len() == 0 {
        Seq::empty()
    } else {
        let rest = spec_filter_pen(s.drop_last(), k);
        if s.last().pen.spec_index() == k {
            rest.push(s.last())
        } else {
            rest
        }
    }
}

/// The finished drawing: one layer of strokes per pen, layer `k` belonging
/// to the pen at position `k` of the canonical pen enumeration.
pub struct LayerMap {
    pub layers: Vec<Vec<LineSegment>>,
}

impl LayerMap {
    /// One layer per pen, each holding only that pen's strokes.
    pub open spec fn wf(self) -> bool {
        &&& self.layers@.len() == 15
        &&& forall|k: int, j: int|
            0 <= k < 15 && 0 <= j < self.layers@[k]@.len() ==> (
            #[trigger] self.layers@[k]@[j]).pen.spec_index() == k
    }

    /// The strokes of layer `k`.
    pub open spec fn spec_layer(self, k: int) -> Seq<LineSegment> {
        self.layers@[k]@
    }

    /// The visible layers: every pen except the blank canvas, paired with
    /// its strokes, omitting pens that drew nothing. The blank-canvas pen
    /// never appears.
    pub fn visible_layers(&self) -> (r: Vec<(InkJoyGelPen, Vec<LineSegment>)>)
        requires
            self.wf(),
        ensures
            forall|i: int|
                0 <= i < r@.len() ==> (#[trigger] r@[i]).0.spec_index() != 14 && r@[i].1@.len() > 0
                    && r@[i].1@ == self.spec_layer(r@[i].0.spec_index()),
            forall|k: int|
                0 <= k < 14 && self.spec_layer(k).len() > 0 ==> exists|i: int|
                    0 <= i < r@.len() && (#[trigger] r@[i]).0.spec_index() == k,
    {
        let pens = crate::colormapper::InkJoyGelPen::available_colors();
        let mut r: Vec<(InkJoyGelPen, Vec<LineSegment>)> = Vec::new();
        let mut k: usize = 0;
        while k < 15
            invariant
                self.wf(),
                pens@ == crate::colormapper::InkJoyGelPen::spec_available(),
                pens@.len() == 15,
                k <= 15,
                forall|i: int|
                    0 <= i < r@.len() ==> (#[trigger] r@[i]).0.spec_index() != 14 && r@[i].1@.len()
                        > 0 && r@[i].1@ == self.spec_layer(r@[i].0.spec_index()),
                forall|kk: int|
                    0 <= kk < k && kk != 14 && self.spec_layer(kk).len() > 0 ==> exists|i: int|
                        0 <= i < r@.len() && (#[trigger] r@[i]).0.spec_index() == kk,
            decreases 15 - k,
        {
            let pen = pens[k];
            let ghost r_prev = r@;
            proof {
                assert(pen.spec_index() == k as int);
            }
            if k != 14 && self.layers[k].len() > 0 {
                let src = &self.layers[k];
                let mut copy: Vec<LineSegment> = Vec::new();
                let mut j: usize = 0;
                while j < src.len()
                    invariant
                        j <= src@.len(),
                        copy@ == src@.take(j as int),
                    decreases src@.len() - j,
                {
                    copy.push(src[j]);
                    proof {
                        assert(copy@ =~= src@.take(j + 1));
                    }
                    j += 1;
                }
                proof {
                    assert(copy@ =~= src@);
                }
                r.push((pen, copy));
                proof {
                    assert(r@[r@.len() - 1].0.spec_index() == k as int);
                }
            }
            proof {
                assert forall|kk: int|
                    0 <= kk < k + 1 && kk != 14 && self.spec_layer(kk).len() > 0 implies exists|
                    i: int,
                |
                    0 <= i < r@.len() && (#[trigger] r@[i]).0.spec_index() == kk by {
                    if kk < k {
                        let i = choose|i: int|
                            0 <= i < r_prev.len() && (#[trigger] r_prev[i]).0.spec_index() == kk;
                        assert(r@[i] == r_prev[i]);
                        assert((r@[i]).0.spec_index() == kk);
                    } else {
                        assert((r@[r@.len() - 1]).0.spec_index() == kk);
                    }
                }
            }
            k += 1;
        }
        r
    }
}

/// Groups a stream of strokes by pen identity, in deterministic pen order,
/// keeping each pen's strokes in their original order: layer `k` holds
/// exactly the strokes drawn with pen number `k`.
pub fn group_layers(segs: &Vec<LineSegment>) -> (r: LayerMap)
    ensures
        r.wf(),
        forall|k: int| 0 <= k < 15 ==> r.spec_layer(k) == spec_filter_pen(segs@, k),
{
    let mut layers: Vec<Vec<LineSegment>> = Vec::new();
    let mut k: usize = 0;
    while k < 15
        invariant
            k <= 15,
            layers@.len() == k,
            forall|kk: int| 0 <= kk < k ==> #[trigger] layers@[kk]@ == spec_filter_pen(segs@, kk),
            forall|kk: int, j: int|
                0 <= kk < k && 0 <= j < layers@[kk]@.len() ==> (
                #[trigger] layers@[kk]@[j]).pen.spec_index() == kk,
        decreases 15 - k,
    {
        let mut layer: Vec<LineSegment> = Vec::new();
        let mut j: usize = 0;
        while j < segs.len()
            invariant
                j <= segs@.len(),
                k < 15,
                layer@ == spec_filter_pen(segs@.take(j as int), k as int),
                forall|t: int|
                    0 <= t < layer@.len() ==> (#[trigger] layer@[t]).pen.spec_index() == k as int,
            decreases segs@.len() - j,
        {
            let s = segs[j];
            proof {
                assert(segs@.take(j + 1).drop_last() =~= segs@.take(j as int));
                assert(segs@.take(j + 1).last() == segs@[j as int]);
            }
            if s.pen.index() == k {
                layer.push(s);
            }
            j += 1;
        }
        proof {
            assert(segs@.take(segs@.len() as int) =~= segs@);
        }
        layers.push(layer);
        k += 1;
    }
    LayerMap { layers }
}

} // verus!
