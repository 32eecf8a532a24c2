//! The block sampler: reduces a rectangular block of source pixels to one
//! representative perceptual color, and combines sampling, matching and
//! dilution estimation into the per-block analysis.
//!
//! Every pixel is converted to the perceptual space first and the block's
//! color is the channel-wise mean of those coordinates. The channel-wise
//! mean is a deliberate approximation and part of the contract.

use vstd::prelude::*;
use vstd::arithmetic::div_mod::{lemma_div_is_ordered, lemma_div_pos_is_pos, lemma_div_multiples_vanish};
use crate::colormapper::{LinearColor, PerceptualColor, InkJoyGelPenBlend, ColoredPen, spec_perceptual, perceptual_from_linear, best_index};
use crate::dilution::{DilutionRatio, estimate_dilution, spec_dilution};
use crate::geometry::spec_div_trunc;

verus! {

/// Largest number of pixels a sampled block may hold.
pub const MAX_BLOCK_PIXELS: usize = 1048576;

/// A decoded raster image: its dimensions and its pixels in row-major
/// order, one display-referred 8-bit RGB triple per pixel.
pub struct ImageGrid {
    pub width: usize,
    pub height: usize,
    pub pixels: Vec<(u8, u8, u8)>,
}

impl ImageGrid {
    /// The pixel buffer covers exactly the stated dimensions.
    pub open spec fn wf(self) -> bool {
        self.pixels.len() == self.width * self.height
    }

    /// The pixel at column `x` of row `y`.
    pub open spec fn spec_pixel(self, x: int, y: int) -> (u8, u8, u8) {
        self.pixels[y * (self.width as int) + x]
    }

    /// Reads the pixel at column `x` of row `y`.
    pub fn get_pixel(&self, x: usize, y: usize) -> (r: (u8, u8, u8))
        requires
            self.wf(),
            x < self.width,
            y < self.height,
        ensures
            r == self.spec_pixel(x as int, y as int),
    {
        proof {
            assert(y * self.width + x < self.width * self.height) by (nonlinear_arith)
                requires
                    x < self.width,
                    y < self.height,
            ;
        }
        self.pixels[y * self.width + x]
    }
}

/// The linear-light color of one display-referred source pixel: each 8-bit
/// channel `c` linearizes as `2 * c * c`, a square-law response that lands
/// on the common channel scale.
pub open spec fn spec_pixel_linear(p: (u8, u8, u8)) -> LinearColor {
    LinearColor {
        red: (2 * (p.0 as int) * (p.0 as int)) as i64,
        green: (2 * (p.1 as int) * (p.1 as int)) as i64,
        blue: (2 * (p.2 as int) * (p.2 as int)) as i64,
    }
}

/// The perceptual coordinates of one source pixel.
pub open spec fn spec_pixel_perc(p: (u8, u8, u8)) -> PerceptualColor {
    spec_perceptual(spec_pixel_linear(p))
}

/// Linearizes one source pixel.
pub fn pixel_linear(p: (u8, u8, u8)) -> (c: LinearColor)
    ensures
        c == spec_pixel_linear(p),
        c.wf(),
{
    let r = p.0 as i64;
    let g = p.1 as i64;
    let b = p.2 as i64;
    proof {
        assert(0 <= 2 * r * r <= 130050 && 0 <= 2 * g * g <= 130050 && 0 <= 2 * b * b <= 130050)
            by (nonlinear_arith)
            requires
                0 <= r <= 255,
                0 <= g <= 255,
                0 <= b <= 255,
        ;
    }
    LinearColor { red: 2 * r * r, green: 2 * g * g, blue: 2 * b * b }
}

/// A pixel's perceptual coordinates lie in the linear-light gamut.
proof fn lemma_pixel_perc_bounds(p: (u8, u8, u8))
    ensures
        spec_pixel_perc(p).in_gamut(),
{
    assert(0 <= 2 * (p.0 as int) * (p.0 as int) <= 130050 && 0 <= 2 * (p.1 as int) * (p.1 as int)
        <= 130050 && 0 <= 2 * (p.2 as int) * (p.2 as int) <= 130050) by (nonlinear_arith);
}

/// Sum of the perceptual coordinates of the `j` topmost pixels of the block
/// column at `x`, rows `y0 ..< y0 + j`.
pub open spec fn spec_col_sum(img: ImageGrid, x: int, y0: int, j: int) -> (int, int, int)
    decreases j,
{
    if j <= 0 {
        (0, 0, 0)
    } else {
        let s = spec_col_sum(img, x, y0, j - 1);
        let p = spec_pixel_perc(img.spec_pixel(x, y0 + j - 1));
        (s.0 + p.l, s.1 + p.a, s.2 + p.b)
    }
}

/// Sum of the perceptual coordinates over the `i` leftmost full columns of
/// the block at `(x0, y0)` with height `h`.
pub open spec fn spec_block_sum(img: ImageGrid, x0: int, y0: int, i: int, h: int) -> (int, int, int)
    decreases i,
{
    if i <= 0 {
        (0, 0, 0)
    } else {
        let s = spec_block_sum(img, x0, y0, i - 1, h);
        let c = spec_col_sum(img, x0 + i - 1, y0, h);
        (s.0 + c.0, s.1 + c.1, s.2 + c.2)
    }
}

/// Column sums grow at most one gamut bound per pixel.
proof fn lemma_col_sum_bounds(img: ImageGrid, x: int, y0: int, j: int)
    requires
        j >= 0,
    ensures
        0 <= spec_col_sum(img, x, y0, j).0 <= j * 780300,
        -(j * 130050) <= spec_col_sum(img, x, y0, j).1 <= j * 130050,
        -(j * 260100) <= spec_col_sum(img, x, y0, j).2 <= j * 260100,
    decreases j,
{
    if j > 0 {
        lemma_col_sum_bounds(img, x, y0, j - 1);
        lemma_pixel_perc_bounds(img.spec_pixel(x, y0 + j - 1));
    }
}

/// Block sums grow at most one column bound per column.
proof fn lemma_block_sum_bounds(img: ImageGrid, x0: int, y0: int, i: int, h: int)
    requires
        i >= 0,
        h >= 0,
    ensures
        0 <= spec_block_sum(img, x0, y0, i, h).0 <= i * h * 780300,
        -(i * h * 130050) <= spec_block_sum(img, x0, y0, i, h).1 <= i * h * 130050,
        -(i * h * 260100) <= spec_block_sum(img, x0, y0, i, h).2 <= i * h * 260100,
    decreases i,
{
    if i > 0 {
        lemma_block_sum_bounds(img, x0, y0, i - 1, h);
        lemma_col_sum_bounds(img, x0 + i - 1, y0, h);
        assert((i - 1) * h * 780300 + h * 780300 == i * h * 780300 && (i - 1) * h * 130050 + h
            * 130050 == i * h * 130050 && (i - 1) * h * 260100 + h * 260100 == i * h * 260100)
            by (nonlinear_arith);
    }
}

/// The representative color of a block: the channel-wise mean, with the
/// machine's truncating division, of the perceptual coordinates of its
/// pixels.
pub open spec fn spec_block_color(img: ImageGrid, x0: int, y0: int, w: int, h: int) -> PerceptualColor {
    let s = spec_block_sum(img, x0, y0, w, h);
    let n = w * h;
    PerceptualColor {
        l: spec_div_trunc(s.0, n) as i64,
        a: spec_div_trunc(s.1, n) as i64,
        b: spec_div_trunc(s.2, n) as i64,
    }
}

/// A truncated mean of values bounded by `bound` is bounded by `bound`.
proof fn lemma_mean_in_range(s: int, n: int, bound: int)
    requires
        n >= 1,
        bound >= 0,
        -(n * bound) <= s <= n * bound,
    ensures
        -bound <= spec_div_trunc(s, n) <= bound,
{
    lemma_div_multiples_vanish(bound, n);
    if s >= 0 {
        lemma_div_pos_is_pos(s, n);
        lemma_div_is_ordered(s, n * bound, n);
    } else {
        lemma_div_pos_is_pos(-s, n);
        lemma_div_is_ordered(-s, n * bound, n);
    }
}

/// Samples a block of the image: converts every pixel of the block to the
/// perceptual space and takes the channel-wise mean. A block must hold at
/// least one pixel; an empty block is a caller error.
pub fn sample_block(image: &ImageGrid, x0: usize, y0: usize, width: usize, height: usize) -> (r:
    PerceptualColor)
    requires
        image.wf(),
        width > 0,
        height > 0,
        width * height <= MAX_BLOCK_PIXELS,
        x0 + width <= image.width,
        y0 + height <= image.height,
    ensures
        r == spec_block_color(*image, x0 as int, y0 as int, width as int, height as int),
        r.wf(),
        r.in_gamut(),
{
    let mut sl: i64 = 0;
    let mut sa: i64 = 0;
    let mut sb: i64 = 0;
    let mut i: usize = 0;
    while i < width
        invariant
            image.wf(),
            width > 0,
            height > 0,
            width * height <= MAX_BLOCK_PIXELS,
            x0 + width <= image.width,
            y0 + height <= image.height,
            i <= width,
            sl as int == spec_block_sum(*image, x0 as int, y0 as int, i as int, height as int).0,
            sa as int == spec_block_sum(*image, x0 as int, y0 as int, i as int, height as int).1,
            sb as int == spec_block_sum(*image, x0 as int, y0 as int, i as int, height as int).2,
        decreases width - i,
    {
        let mut j: usize = 0;
        while j < height
            invariant
                image.wf(),
                width > 0,
                height > 0,
                width * height <= MAX_BLOCK_PIXELS,
                x0 + width <= image.width,
                y0 + height <= image.height,
                i < width,
                j <= height,
                sl as int == spec_block_sum(
                    *image,
                    x0 as int,
                    y0 as int,
                    i as int,
                    height as int,
                ).0 + spec_col_sum(*image, x0 + i, y0 as int, j as int).0,
                sa as int == spec_block_sum(
                    *image,
                    x0 as int,
                    y0 as int,
                    i as int,
                    height as int,
                ).1 + spec_col_sum(*image, x0 + i, y0 as int, j as int).1,
                sb as int == spec_block_sum(
                    *image,
                    x0 as int,
                    y0 as int,
                    i as int,
                    height as int,
                ).2 + spec_col_sum(*image, x0 + i, y0 as int, j as int).2,
            decreases height - j,
        {
            let p = image.get_pixel(x0 + i, y0 + j);
            let lc = pixel_linear(p);
            let pc = perceptual_from_linear(&lc);
            proof {
                lemma_block_sum_bounds(*image, x0 as int, y0 as int, i as int, height as int);
                lemma_col_sum_bounds(*image, x0 + i, y0 as int, j as int);
                assert(i * (height as int) * 780300 + (j as int) * 780300 + 780300 <= 1048576
                    * 780300 && i * (height as int) * 130050 + (j as int) * 130050 + 130050
                    <= 1048576 * 130050 && i * (height as int) * 260100 + (j as int) * 260100
                    + 260100 <= 1048576 * 260100) by (nonlinear_arith)
                    requires
                        0 <= i < width,
                        0 <= j < height,
                        width * height <= 1048576,
                ;
            }
            sl = sl + pc.l;
            sa = sa + pc.a;
            sb = sb + pc.b;
            j += 1;
        }
        i += 1;
    }
    let n = (width * height) as i64;
    proof {
        lemma_block_sum_bounds(
            *image,
            x0 as int,
            y0 as int,
            width as int,
            height as int,
        );
        assert(width * height >= 1) by (nonlinear_arith)
            requires
                width >= 1,
                height >= 1,
        ;
        lemma_mean_in_range(sl as int, (width * height) as int, 780300);
        lemma_mean_in_range(sa as int, (width * height) as int, 130050);
        lemma_mean_in_range(sb as int, (width * height) as int, 260100);
        assert((width as int) * (height as int) * 780300 == ((width * height) as int) * 780300
            && (width as int) * (height as int) * 130050 == ((width * height) as int) * 130050
            && (width as int) * (height as int) * 260100 == ((width * height) as int) * 260100);
    }
    PerceptualColor { l: sl / n, a: sa / n, b: sb / n }
}

/// Analyzes one block: samples its representative color, matches the
/// nearest ink blend of the full blend palette, and estimates the dilution
/// that best reproduces the block's color when that blend is mixed toward
/// white.
pub fn compute_pixel_color_and_brightness(
    image: &ImageGrid,
    pixel_start: (usize, usize),
    width: usize,
    height: usize,
) -> (r: (InkJoyGelPenBlend, DilutionRatio))
    requires
        image.wf(),
        width > 0,
        height > 0,
        width * height <= MAX_BLOCK_PIXELS,
        pixel_start.0 + width <= image.width,
        pixel_start.1 + height <= image.height,
    ensures
        ({
            let target = spec_block_color(
                *image,
                pixel_start.0 as int,
                pixel_start.1 as int,
                width as int,
                height as int,
            );
            &&& r.0 == InkJoyGelPenBlend::spec_available()[best_index(
                InkJoyGelPenBlend::spec_palette_colors(),
                target,
            )]
            &&& r.1.numer == spec_dilution(target, spec_perceptual(r.0.spec_rgb()))
            &&& r.1.wf()
        }),
{
    let target = sample_block(image, pixel_start.0, pixel_start.1, width, height);
    let repr = InkJoyGelPenBlend::closest_pen_to_color(&target);
    let repr_lab = repr.lab_color();
    let ratio = estimate_dilution(&target, &repr_lab);
    (repr, ratio)
}

} // verus!
