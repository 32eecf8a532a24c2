//! The end-to-end rendering pipeline: a grid of blocks over the source
//! image, each block sampled, matched, diluted and hatched, and the strokes
//! grouped into one layer per pen.
//!
//! Origin jitter is derived deterministically from the seed and the block
//! indices, so a drawing is bit-reproducible from its seed, independent of
//! evaluation order.

use vstd::prelude::*;
use vstd::arithmetic::div_mod::{
    lemma_div_is_ordered,
    lemma_div_multiples_vanish,
    lemma_div_pos_is_pos,
    lemma_fundamental_div_mod,
    lemma_mod_bound,
};
use crate::colormapper::{InkJoyGelPenBlend, ColoredPen, best_index, spec_perceptual};
use crate::sampler::{ImageGrid, spec_block_color, compute_pixel_color_and_brightness, MAX_BLOCK_PIXELS};
use crate::dilution::spec_dilution;
use crate::field::{DirectionField, spec_corner};
use crate::geometry::Vec2;
use crate::hatch::{
    LineSegment,
    LayerMap,
    group_layers,
    hatch_block,
    line_spacing,
    spec_filter_pen,
    spec_hatch_block,
    spec_line_spacing,
    MIN_SPACING_FP,
    MAX_SPACING_FP,
};

verus! {

/// The normalized fixed-point coordinate of block `b` in a row of `n`.
pub open spec fn spec_norm_coord(b: int, n: int) -> int {
    (b * 65536) / n
}

/// Computes a normalized block coordinate.
fn norm_coord(b: usize, n: usize) -> (r: u64)
    requires
        0 < n <= 0x1_0000_0000,
        b < n,
    ensures
        r == spec_norm_coord(b as int, n as int),
        r <= 65536,
{
    proof {
        lemma_div_pos_is_pos((b as int) * 65536, n as int);
        assert((b as int) * 65536 <= (n as int) * 65536) by (nonlinear_arith)
            requires
                0 <= b <= n,
        ;
        lemma_div_is_ordered((b as int) * 65536, (n as int) * 65536, n as int);
        lemma_div_multiples_vanish(65536, n as int);
    }
    ((b as u64) * 65536) / (n as u64)
}

/// The deterministic origin jitter of one block along one axis: a lattice
/// hash of the block indices, scaled into half the block's extent.
pub open spec fn spec_jitter(seed: u64, bx: u64, by: u64, extent: int) -> int {
    (spec_corner(seed, bx, by) * (extent / 2)) / 65536
}

/// Computes one axis of a block's origin jitter.
fn jitter(seed: u64, bx: u64, by: u64, extent: i64) -> (r: i64)
    requires
        bx < 0x1_0000_0000,
        by < 0x1_0000_0000,
        0 <= extent <= 0x2000_0000,
    ensures
        r == spec_jitter(seed, bx, by, extent as int),
        0 <= r <= extent / 2,
{
    let h = crate::field::corner_hash(seed, bx, by);
    let e2 = extent / 2;
    proof {
        assert(0 <= (h as int) * (e2 as int) && (h as int) * (e2 as int) <= 65536 * (e2 as int))
            by (nonlinear_arith)
            requires
                0 <= h < 65536,
                0 <= e2,
        ;
        lemma_div_pos_is_pos((h as int) * (e2 as int), 65536);
        lemma_div_is_ordered((h as int) * (e2 as int), 65536 * (e2 as int), 65536);
        lemma_div_multiples_vanish(e2 as int, 65536);
    }
    ((h as i64) * e2) / 65536
}

/// All the strokes of the block at grid position `(bx, by)`: the block is
/// sampled, the nearest blend matched, the dilution and with it the line
/// spacing chosen, the direction field read at the block's normalized
/// position, and the block hatched from a jittered origin.
pub open spec fn spec_block_strokes<D: DirectionField>(
    img: ImageGrid,
    field: D,
    seed: u64,
    px_x: int,
    px_y: int,
    bw_px: int,
    bh_px: int,
    mins: int,
    maxs: int,
    bx: int,
    by: int,
) -> Seq<LineSegment> {
    let target = spec_block_color(img, bx * bw_px, by * bh_px, bw_px, bh_px);
    let blend = InkJoyGelPenBlend::spec_available()[best_index(
        InkJoyGelPenBlend::spec_palette_colors(),
        target,
    )];
    let dil = spec_dilution(target, spec_perceptual(blend.spec_rgb()));
    let spacing = spec_line_spacing(dil, mins, maxs);
    let v = field.spec_direction(
        spec_norm_coord(bx, px_x) as u64,
        spec_norm_coord(by, px_y) as u64,
    );
    let bw = bw_px * 65536;
    let bh = bh_px * 65536;
    let js = seed % 0x1_0000_0000;
    let origin = Vec2 {
        x: spec_jitter((js + 505) as u64, bx as u64, by as u64, bw) as i64,
        y: spec_jitter((js + 606) as u64, bx as u64, by as u64, bh) as i64,
    };
    spec_hatch_block(blend, origin, v, spacing, bw, bh, bx * bw_px * 65536, by * bh_px * 65536)
}

/// The strokes of the first `j` blocks of grid column `bx`, top to bottom.
pub open spec fn spec_column_strokes<D: DirectionField>(
    img: ImageGrid,
    field: D,
    seed: u64,
    px_x: int,
    px_y: int,
    bw_px: int,
    bh_px: int,
    mins: int,
    maxs: int,
    bx: int,
    j: int,
) -> Seq<LineSegment>
    decreases j,
{
    if j <= 0 {
        Seq::empty()
    } else {
        spec_column_strokes(img, field, seed, px_x, px_y, bw_px, bh_px, mins, maxs, bx, j - 1)
            + spec_block_strokes(img, field, seed, px_x, px_y, bw_px, bh_px, mins, maxs, bx, j - 1)
    }
}

/// The strokes of the first `i` full columns of the block grid, left to
/// right.
pub open spec fn spec_grid_strokes<D: DirectionField>(
    img: ImageGrid,
    field: D,
    seed: u64,
    px_x: int,
    px_y: int,
    bw_px: int,
    bh_px: int,
    mins: int,
    maxs: int,
    i: int,
) -> Seq<LineSegment>
    decreases i,
{
    if i <= 0 {
        Seq::empty()
    } else {
        spec_grid_strokes(img, field, seed, px_x, px_y, bw_px, bh_px, mins, maxs, i - 1)
            + spec_column_strokes(img, field, seed, px_x, px_y, bw_px, bh_px, mins, maxs, i - 1, px_y)
    }
}

/// Analyzes and hatches the one block at grid position `(i, j)`, appending
/// its strokes.
#[verifier::rlimit(100)]
fn render_block<D: DirectionField>(
    segs: &mut Vec<LineSegment>,
    image: &ImageGrid,
    field: &D,
    seed: u64,
    pixels_x: usize,
    pixels_y: usize,
    bw_px: usize,
    bh_px: usize,
    min_spacing: i64,
    max_spacing: i64,
    i: usize,
    j: usize,
)
    requires
        image.wf(),
        0 < pixels_x,
        0 < pixels_y,
        image.width <= 0x400_0000,
        image.height <= 0x400_0000,
        1 <= bw_px <= 8192,
        1 <= bh_px <= 8192,
        bw_px * bh_px <= MAX_BLOCK_PIXELS,
        (pixels_x as int) * (bw_px as int) <= image.width,
        (pixels_y as int) * (bh_px as int) <= image.height,
        MIN_SPACING_FP <= min_spacing <= max_spacing <= MAX_SPACING_FP,
        i < pixels_x,
        j < pixels_y,
    ensures
        final(segs)@ == old(segs)@ + spec_block_strokes(
            *image,
            *field,
            seed,
            pixels_x as int,
            pixels_y as int,
            bw_px as int,
            bh_px as int,
            min_spacing as int,
            max_spacing as int,
            i as int,
            j as int,
        ),
{
    proof {
        assert((i as int) * (bw_px as int) + (bw_px as int) <= (pixels_x as int) * (bw_px as int)
            && (j as int) * (bh_px as int) + (bh_px as int) <= (pixels_y as int) * (bh_px as int)
            && 0 <= (i as int) * (bw_px as int) && 0 <= (j as int) * (bh_px as int) && (
        pixels_x as int) <= (pixels_x as int) * (bw_px as int) && (pixels_y as int) <= (
        pixels_y as int) * (bh_px as int)) by (nonlinear_arith)
            requires
                0 <= i < pixels_x,
                0 <= j < pixels_y,
                1 <= bw_px,
                1 <= bh_px,
        ;
    }
    let js = seed % 0x1_0000_0000;
    let x0 = i * bw_px;
    let y0 = j * bh_px;
    let (blend, dil) = compute_pixel_color_and_brightness(image, (x0, y0), bw_px, bh_px);
    let spacing = line_spacing(&dil, min_spacing, max_spacing);
    let nx = norm_coord(i, pixels_x);
    let ny = norm_coord(j, pixels_y);
    let v = field.direction(nx, ny);
    let bw = (bw_px as i64) * 65536;
    let bh = (bh_px as i64) * 65536;
    let ox = jitter(js + 505, i as u64, j as u64, bw);
    let oy = jitter(js + 606, i as u64, j as u64, bh);
    let origin = Vec2 { x: ox, y: oy };
    let gx = (x0 as i64) * 65536;
    let gy = (y0 as i64) * 65536;
    hatch_block(segs, &blend, &origin, &v, spacing, bw, bh, gx, gy);
}

/// Renders the whole image: walks the block grid in raster order, hatches
/// every block, and groups the strokes into one layer per pen. Layer `k` of
/// the result holds exactly the strokes of pen `k`, in generation order.
#[verifier::rlimit(100)]
pub fn render<D: DirectionField>(
    image: &ImageGrid,
    field: &D,
    pixels_x: usize,
    pixels_y: usize,
    min_spacing: i64,
    max_spacing: i64,
    seed: u64,
) -> (r: LayerMap)
    requires
        image.wf(),
        0 < pixels_x,
        0 < pixels_y,
        image.width <= 0x400_0000,
        image.height <= 0x400_0000,
        1 <= image.width / pixels_x <= 8192,
        1 <= image.height / pixels_y <= 8192,
        (image.width / pixels_x) * (image.height / pixels_y) <= MAX_BLOCK_PIXELS,
        MIN_SPACING_FP <= min_spacing <= max_spacing <= MAX_SPACING_FP,
    ensures
        r.wf(),
        forall|k: int|
            0 <= k < 15 ==> r.spec_layer(k) == spec_filter_pen(
                spec_grid_strokes(
                    *image,
                    *field,
                    seed,
                    pixels_x as int,
                    pixels_y as int,
                    (image.width / pixels_x) as int,
                    (image.height / pixels_y) as int,
                    min_spacing as int,
                    max_spacing as int,
                    pixels_x as int,
                ),
                k,
            ),
{
    let bw_px = image.width / pixels_x;
    let bh_px = image.height / pixels_y;
    proof {
        lemma_fundamental_div_mod(image.width as int, pixels_x as int);
        lemma_mod_bound(image.width as int, pixels_x as int);
        lemma_fundamental_div_mod(image.height as int, pixels_y as int);
        lemma_mod_bound(image.height as int, pixels_y as int);
        assert((pixels_x as int) * (bw_px as int) <= image.width);
        assert((pixels_y as int) * (bh_px as int) <= image.height);
    }
    let js = seed % 0x1_0000_0000;
    let mut segs: Vec<LineSegment> = Vec::new();
    let mut i: usize = 0;
    while i < pixels_x
        invariant
            image.wf(),
            0 < pixels_x,
            0 < pixels_y,
            image.width <= 0x400_0000,
            image.height <= 0x400_0000,
            bw_px == image.width / pixels_x,
            bh_px == image.height / pixels_y,
            1 <= bw_px <= 8192,
            1 <= bh_px <= 8192,
            bw_px * bh_px <= MAX_BLOCK_PIXELS,
            (pixels_x as int) * (bw_px as int) <= image.width,
            (pixels_y as int) * (bh_px as int) <= image.height,
            MIN_SPACING_FP <= min_spacing <= max_spacing <= MAX_SPACING_FP,
            js == seed % 0x1_0000_0000,
            i <= pixels_x,
            segs@ == spec_grid_strokes(
                *image,
                *field,
                seed,
                pixels_x as int,
                pixels_y as int,
                bw_px as int,
                bh_px as int,
                min_spacing as int,
                max_spacing as int,
                i as int,
            ),
        decreases pixels_x - i,
    {
        let mut j: usize = 0;
        while j < pixels_y
            invariant
                image.wf(),
                0 < pixels_x,
                0 < pixels_y,
                image.width <= 0x400_0000,
                image.height <= 0x400_0000,
                bw_px == image.width / pixels_x,
                bh_px == image.height / pixels_y,
                1 <= bw_px <= 8192,
                1 <= bh_px <= 8192,
                bw_px * bh_px <= MAX_BLOCK_PIXELS,
                (pixels_x as int) * (bw_px as int) <= image.width,
                (pixels_y as int) * (bh_px as int) <= image.height,
                MIN_SPACING_FP <= min_spacing <= max_spacing <= MAX_SPACING_FP,
                js == seed % 0x1_0000_0000,
                i < pixels_x,
                j <= pixels_y,
                segs@ == spec_grid_strokes(
                    *image,
                    *field,
                    seed,
                    pixels_x as int,
                    pixels_y as int,
                    bw_px as int,
                    bh_px as int,
                    min_spacing as int,
                    max_spacing as int,
                    i as int,
                ) + spec_column_strokes(
                    *image,
                    *field,
                    seed,
                    pixels_x as int,
                    pixels_y as int,
                    bw_px as int,
                    bh_px as int,
                    min_spacing as int,
                    max_spacing as int,
                    i as int,
                    j as int,
                ),
            decreases pixels_y - j,
        {
            let ghost segs_before = segs@;
            render_block(
                &mut segs,
                image,
                field,
                seed,
                pixels_x,
                pixels_y,
                bw_px,
                bh_px,
                min_spacing,
                max_spacing,
                i,
                j,
            );
            proof {
                assert(segs_before + spec_block_strokes(
                    *image,
                    *field,
                    seed,
                    pixels_x as int,
                    pixels_y as int,
                    bw_px as int,
                    bh_px as int,
                    min_spacing as int,
                    max_spacing as int,
                    i as int,
                    j as int,
                ) =~= spec_grid_strokes(
                    *image,
                    *field,
                    seed,
                    pixels_x as int,
                    pixels_y as int,
                    bw_px as int,
                    bh_px as int,
                    min_spacing as int,
                    max_spacing as int,
                    i as int,
                ) + spec_column_strokes(
                    *image,
                    *field,
                    seed,
                    pixels_x as int,
                    pixels_y as int,
                    bw_px as int,
                    bh_px as int,
                    min_spacing as int,
                    max_spacing as int,
                    i as int,
                    j + 1,
                ));
            }
            j += 1;
        }
        i += 1;
    }
    group_layers(&segs)
}

} // verus!
