//! The pen palette, its blend model, and nearest-pen perceptual matching.
//!
//! Colors are held in exact fixed-point integers. A linear-light channel
//! lives on the scale `0 ..= LIN_ONE` where `LIN_ONE == 510 * 255`: a pen
//! defined by an 8-bit byte `v` has channel `510 * v`, so the midpoint of any
//! two pen channels is again an exact integer, and a display-referred source
//! byte `c` linearizes to `2 * c * c` on the same scale.

use vstd::prelude::*;

verus! {

/// Fixed-point scale of one linear-light color channel: `510 * 255`.
pub const LIN_ONE: i64 = 130050;

/// Bound on the magnitude of a perceptual coordinate accepted by the
/// distance computation; keeps squared distances inside `i64`.
pub const MAX_PERC: i64 = 0x1000_0000;

/// A linear-light RGB color; each channel is a fixed-point value in
/// `0 ..= LIN_ONE`.
#[derive(Clone, Copy, Debug, PartialEq, Eq, Structural, Hash)]
pub struct LinearColor {
    pub red: i64,
    pub green: i64,
    pub blue: i64,
}

impl LinearColor {
    /// Channels lie on the linear scale.
    pub open spec fn wf(self) -> bool {
        0 <= self.red <= LIN_ONE && 0 <= self.green <= LIN_ONE && 0 <= self.blue <= LIN_ONE
    }
}

/// A color in the engine's perceptually uniform space: a lightness axis and
/// two opponent chroma axes (red minus green, blue minus yellow), all derived
/// linearly from linear-light RGB.
#[derive(Clone, Copy, Debug, PartialEq, Eq, Structural, Hash)]
pub struct PerceptualColor {
    pub l: i64,
    pub a: i64,
    pub b: i64,
}

impl PerceptualColor {
    /// Coordinates are small enough that squared distances fit in `i64`.
    pub open spec fn wf(self) -> bool {
        -MAX_PERC <= self.l <= MAX_PERC && -MAX_PERC <= self.a <= MAX_PERC && -MAX_PERC
            <= self.b <= MAX_PERC
    }

    /// Coordinates lie in the image of the linear-light gamut: what the
    /// perceptual conversion can produce from a well-formed linear color.
    pub open spec fn in_gamut(self) -> bool {
        0 <= self.l <= 6 * LIN_ONE && -LIN_ONE <= self.a <= LIN_ONE && -2 * LIN_ONE <= self.b
            <= 2 * LIN_ONE
    }
}

/// The perceptual coordinates of a linear-light color: a weighted lightness
/// and the two opponent chroma differences.
pub open spec fn spec_perceptual(c: LinearColor) -> PerceptualColor {
    PerceptualColor {
        l: (2 * c.red + 3 * c.green + c.blue) as i64,
        a: (c.red - c.green) as i64,
        b: (2 * c.blue - c.red - c.green) as i64,
    }
}

/// Squared Euclidean distance between two perceptual colors.
pub open spec fn distance_sq(c1: PerceptualColor, c2: PerceptualColor) -> int {
    (c1.l - c2.l) * (c1.l - c2.l) + (c1.a - c2.a) * (c1.a - c2.a) + (c1.b - c2.b) * (c1.b - c2.b)
}

/// The square of a number bounded by `b` is bounded by `b * b`.
proof fn lemma_square_bound(x: int, b: int)
    requires
        -b <= x <= b,
    ensures
        0 <= x * x <= b * b,
{
    assert(0 <= x * x <= b * b) by (nonlinear_arith)
        requires
            -b <= x <= b,
    ;
}

/// Squared perceptual distance is never negative.
pub proof fn lemma_distance_sq_nonneg(c1: PerceptualColor, c2: PerceptualColor)
    ensures
        distance_sq(c1, c2) >= 0,
{
    lemma_square_bound(c1.l - c2.l, if c1.l - c2.l >= 0 { c1.l - c2.l } else { c2.l - c1.l });
    lemma_square_bound(c1.a - c2.a, if c1.a - c2.a >= 0 { c1.a - c2.a } else { c2.a - c1.a });
    lemma_square_bound(c1.b - c2.b, if c1.b - c2.b >= 0 { c1.b - c2.b } else { c2.b - c1.b });
}

/// A square is zero exactly when its root is.
proof fn lemma_square_zero(x: int)
    ensures
        x * x == 0 <==> x == 0,
{
    assert(x * x == 0 <==> x == 0) by (nonlinear_arith);
}

/// Squared perceptual distance is zero exactly between equal colors.
pub proof fn lemma_distance_sq_zero_iff_eq(c1: PerceptualColor, c2: PerceptualColor)
    ensures
        distance_sq(c1, c2) == 0 <==> c1 == c2,
{
    lemma_square_bound(c1.l - c2.l, if c1.l - c2.l >= 0 { c1.l - c2.l } else { c2.l - c1.l });
    lemma_square_bound(c1.a - c2.a, if c1.a - c2.a >= 0 { c1.a - c2.a } else { c2.a - c1.a });
    lemma_square_bound(c1.b - c2.b, if c1.b - c2.b >= 0 { c1.b - c2.b } else { c2.b - c1.b });
    lemma_square_zero(c1.l - c2.l);
    lemma_square_zero(c1.a - c2.a);
    lemma_square_zero(c1.b - c2.b);
}

/// Converts a linear-light color to its perceptual coordinates.
pub fn perceptual_from_linear(c: &LinearColor) -> (r: PerceptualColor)
    requires
        c.wf(),
    ensures
        r == spec_perceptual(*c),
        r.wf(),
        r.in_gamut(),
{
    PerceptualColor {
        l: 2 * c.red + 3 * c.green + c.blue,
        a: c.red - c.green,
        b: 2 * c.blue - c.red - c.green,
    }
}

/// Computes the squared perceptual distance between two colors.
pub fn distance_sq_between(c1: &PerceptualColor, c2: &PerceptualColor) -> (r: i64)
    requires
        c1.wf(),
        c2.wf(),
    ensures
        r == distance_sq(*c1, *c2),
        r >= 0,
{
    proof {
        lemma_square_bound(c1.l - c2.l, 0x2000_0000);
        lemma_square_bound(c1.a - c2.a, 0x2000_0000);
        lemma_square_bound(c1.b - c2.b, 0x2000_0000);
        assert((c1.l - c2.l) * (c1.l - c2.l) <= 0x400_0000_0000_0000);
        assert((c1.a - c2.a) * (c1.a - c2.a) <= 0x400_0000_0000_0000);
        assert((c1.b - c2.b) * (c1.b - c2.b) <= 0x400_0000_0000_0000);
    }
    let dl = c1.l - c2.l;
    let da = c1.a - c2.a;
    let db = c1.b - c2.b;
    dl * dl + da * da + db * db
}

/// The linear-light color of a pen defined by three 8-bit bytes.
pub open spec fn lin_bytes(r: int, g: int, b: int) -> LinearColor {
    LinearColor { red: (510 * r) as i64, green: (510 * g) as i64, blue: (510 * b) as i64 }
}

/// Builds a pen color from its three 8-bit definition bytes.
fn linear_from_bytes(r: i64, g: i64, b: i64) -> (c: LinearColor)
    requires
        0 <= r <= 255,
        0 <= g <= 255,
        0 <= b <= 255,
    ensures
        c == lin_bytes(r as int, g as int, b as int),
        c.wf(),
{
    LinearColor { red: 510 * r, green: 510 * g, blue: 510 * b }
}

/// The 8-bit display value of one linear channel: the channel re-encoded to
/// `0 ..= 255` with rounding to the nearest integer.
pub open spec fn spec_display_byte(ch: i64) -> int {
    (ch + 255) / 510
}

/// Re-encodes a linear-light color as three display bytes, rounding each
/// channel to the nearest 8-bit value.
pub fn display_bytes(c: &LinearColor) -> (r: (u8, u8, u8))
    requires
        c.wf(),
    ensures
        r.0 == spec_display_byte(c.red),
        r.1 == spec_display_byte(c.green),
        r.2 == spec_display_byte(c.blue),
{
    (((c.red + 255) / 510) as u8, ((c.green + 255) / 510) as u8, ((c.blue + 255) / 510) as u8)
}

/// The linear-light midpoint of two colors: each channel is averaged before
/// re-encoding, which models laying the two inks over each other.
pub open spec fn spec_blend_color(a: LinearColor, b: LinearColor) -> LinearColor {
    LinearColor {
        red: ((a.red + b.red) / 2) as i64,
        green: ((a.green + b.green) / 2) as i64,
        blue: ((a.blue + b.blue) / 2) as i64,
    }
}

/// Blending is symmetric in its two colors: the displayed color of a pair
/// does not depend on the order of the pair.
pub proof fn lemma_blend_color_symmetric(a: LinearColor, b: LinearColor)
    ensures
        spec_blend_color(a, b) == spec_blend_color(b, a),
{
}

/// Index of the nearest color of a sequence, scanning left to right and
/// keeping the current choice unless a strictly nearer one appears; the
/// earliest of several equally near candidates therefore wins.
pub open spec fn best_index(s: Seq<PerceptualColor>, c: PerceptualColor) -> int
    decreases s.len(),
{
    if s.len() <= 1 {
        0
    } else {
        let prev = best_index(s.drop_last(), c);
        if distance_sq(s.last(), c) < distance_sq(s[prev], c) {
            s.len() - 1
        } else {
            prev
        }
    }
}

/// The nearest index of a non-empty sequence is in range and points at a
/// color at least as near to the target as every entry.
pub proof fn lemma_best_index_props(s: Seq<PerceptualColor>, c: PerceptualColor)
    requires
        s.len() > 0,
    ensures
        0 <= best_index(s, c) < s.len(),
        forall|i: int|
            0 <= i < s.len() ==> distance_sq(s[best_index(s, c)], c) <= distance_sq(
                #[trigger] s[i],
                c,
            ),
    decreases s.len(),
{
    if s.len() > 1 {
        let sub = s.drop_last();
        lemma_best_index_props(sub, c);
        assert(forall|i: int| 0 <= i < sub.len() ==> sub[i] == s[i]);
    }
}

/// A physical pen: something with a linear-light color that can be matched
/// perceptually against the full set of pens of its kind.
pub trait ColoredPen: Sized + Copy {
    /// The pen's linear-light color, as a mathematical value.
    spec fn spec_rgb(self) -> LinearColor;

    /// The canonical enumeration of every pen of this kind; matching ties
    /// are broken toward the earliest entry of this sequence.
    spec fn spec_available() -> Seq<Self>;

    /// The perceptual colors of the canonical enumeration, entry by entry.
    spec fn spec_palette_colors() -> Seq<PerceptualColor>;

    /// The palette-color table lists exactly the perceptual color of each
    /// available pen.
    proof fn palette_colors_law()
        ensures
            Self::spec_palette_colors().len() == Self::spec_available().len(),
            forall|i: int|
                0 <= i < Self::spec_available().len() ==> Self::spec_palette_colors()[i]
                    == spec_perceptual((#[trigger] Self::spec_available()[i]).spec_rgb()),
    ;

    /// Enumerates every pen of this kind, in canonical order.
    fn available_colors() -> (r: Vec<Self>)
        ensures
            r@ == Self::spec_available(),
            r@.len() > 0,
    ;

    /// The pen's linear-light color.
    fn rgb_color(&self) -> (r: LinearColor)
        ensures
            r == self.spec_rgb(),
            r.wf(),
    ;

    /// The pen's color re-encoded as three 8-bit display bytes.
    fn rgb_pixel(&self) -> (r: (u8, u8, u8))
        ensures
            r.0 == spec_display_byte(self.spec_rgb().red),
            r.1 == spec_display_byte(self.spec_rgb().green),
            r.2 == spec_display_byte(self.spec_rgb().blue),
    ;

    /// The pen's color in the perceptual space.
    fn lab_color(&self) -> (r: PerceptualColor)
        ensures
            r == spec_perceptual(self.spec_rgb()),
            r.wf(),
            r.in_gamut(),
    ;

    /// The pen of this kind whose perceptual color is nearest to `icolor`;
    /// among equally near pens, the earliest in canonical order wins.
    fn closest_pen_to_color(icolor: &PerceptualColor) -> (r: Self)
        requires
            icolor.wf(),
        ensures
            0 <= best_index(Self::spec_palette_colors(), *icolor) < Self::spec_available().len(),
            r == Self::spec_available()[best_index(Self::spec_palette_colors(), *icolor)],
            forall|i: int|
                0 <= i < Self::spec_palette_colors().len() ==> distance_sq(
                    spec_perceptual(r.spec_rgb()),
                    *icolor,
                ) <= distance_sq(#[trigger] Self::spec_palette_colors()[i], *icolor),
    ;
}

/// Scans a non-empty color table for the entry nearest to `icolor`,
/// breaking ties toward the earliest entry, and returns its index.
fn closest_index_in(colors: &Vec<PerceptualColor>, icolor: &PerceptualColor) -> (r: usize)
    requires
        colors@.len() > 0,
        icolor.wf(),
        forall|k: int| 0 <= k < colors@.len() ==> (#[trigger] colors@[k]).wf(),
    ensures
        r < colors@.len(),
        r == best_index(colors@, *icolor),
{
    let mut best: usize = 0;
    let mut bestd: i64 = distance_sq_between(&colors[0], icolor);
    let mut i: usize = 1;
    assert(colors@.take(1).len() == 1 && colors@.take(1)[0] == colors@[0]);
    while i < colors.len()
        invariant
            1 <= i <= colors@.len(),
            icolor.wf(),
            forall|k: int| 0 <= k < colors@.len() ==> (#[trigger] colors@[k]).wf(),
            0 <= best_index(colors@.take(i as int), *icolor) < i,
            best == best_index(colors@.take(i as int), *icolor),
            bestd == distance_sq(colors@[best_index(colors@.take(i as int), *icolor)], *icolor),
        decreases colors@.len() - i,
    {
        let d = distance_sq_between(&colors[i], icolor);
        proof {
            assert(colors@.take(i + 1).drop_last() =~= colors@.take(i as int));
            assert(colors@.take(i + 1).last() == colors@[i as int]);
            assert(forall|k: int| 0 <= k < i ==> #[trigger] colors@.take(i + 1)[k] == colors@[k]);
        }
        if d < bestd {
            best = i;
            bestd = d;
        }
        i += 1;
    }
    proof {
        assert(colors@.take(colors@.len() as int) =~= colors@);
    }
    best
}

/// One gel pen of the physical set, plus the blank-canvas pseudo-pen that
/// stands for leaving the paper unmarked.
#[derive(Clone, Copy, Debug, PartialEq, Eq, Structural, Hash)]
pub enum InkJoyGelPen {
    Red,
    Berry,
    Pink,
    Orange,
    Yellow,
    Green,
    Lime,
    SlateBlue,
    Blue,
    BrightBlue,
    Teal,
    Purple,
    Cocoa,
    Black,
    WhiteCanvas,
}

impl InkJoyGelPen {
    /// Position of the pen in the canonical enumeration.
    pub open spec fn spec_index(self) -> int {
        match self {
            InkJoyGelPen::Red => 0,
            InkJoyGelPen::Berry => 1,
            InkJoyGelPen::Pink => 2,
            InkJoyGelPen::Orange => 3,
            InkJoyGelPen::Yellow => 4,
            InkJoyGelPen::Green => 5,
            InkJoyGelPen::Lime => 6,
            InkJoyGelPen::SlateBlue => 7,
            InkJoyGelPen::Blue => 8,
            InkJoyGelPen::BrightBlue => 9,
            InkJoyGelPen::Teal => 10,
            InkJoyGelPen::Purple => 11,
            InkJoyGelPen::Cocoa => 12,
            InkJoyGelPen::Black => 13,
            InkJoyGelPen::WhiteCanvas => 14,
        }
    }

    /// Position of the pen in the canonical enumeration.
    pub fn index(&self) -> (r: usize)
        ensures
            r == self.spec_index(),
            r < 15,
    {
        match self {
            InkJoyGelPen::Red => 0,
            InkJoyGelPen::Berry => 1,
            InkJoyGelPen::Pink => 2,
            InkJoyGelPen::Orange => 3,
            InkJoyGelPen::Yellow => 4,
            InkJoyGelPen::Green => 5,
            InkJoyGelPen::Lime => 6,
            InkJoyGelPen::SlateBlue => 7,
            InkJoyGelPen::Blue => 8,
            InkJoyGelPen::BrightBlue => 9,
            InkJoyGelPen::Teal => 10,
            InkJoyGelPen::Purple => 11,
            InkJoyGelPen::Cocoa => 12,
            InkJoyGelPen::Black => 13,
            InkJoyGelPen::WhiteCanvas => 14,
        }
    }

    /// A short name for the pen, for labeling output layers.
    pub fn name(&self) -> (r: &'static str) {
        match self {
            InkJoyGelPen::Red => "Red",
            InkJoyGelPen::Berry => "Berry",
            InkJoyGelPen::Pink => "Pink",
            InkJoyGelPen::Orange => "Orange",
            InkJoyGelPen::Yellow => "Yellow",
            InkJoyGelPen::Green => "Green",
            InkJoyGelPen::Lime => "Lime",
            InkJoyGelPen::SlateBlue => "SlateBlue",
            InkJoyGelPen::Blue => "Blue",
            InkJoyGelPen::BrightBlue => "BrightBlue",
            InkJoyGelPen::Teal => "Teal",
            InkJoyGelPen::Purple => "Purple",
            InkJoyGelPen::Cocoa => "Cocoa",
            InkJoyGelPen::Black => "Black",
            InkJoyGelPen::WhiteCanvas => "WhiteCanvas",
        }
    }
}

impl ColoredPen for InkJoyGelPen {
    open spec fn spec_rgb(self) -> LinearColor {
        match self {
            InkJoyGelPen::Red => lin_bytes(0xd1, 0x24, 0x31),
            InkJoyGelPen::Berry => lin_bytes(0xc1, 0x52, 0x9e),
            InkJoyGelPen::Pink => lin_bytes(0xd8, 0x40, 0x8c),
            InkJoyGelPen::Orange => lin_bytes(0xf3, 0x6c, 0x38),
            InkJoyGelPen::Yellow => lin_bytes(0xff, 0xda, 0x3a),
            InkJoyGelPen::Green => lin_bytes(0x00, 0xa8, 0x5d),
            InkJoyGelPen::Lime => lin_bytes(0xa6, 0xd0, 0x60),
            InkJoyGelPen::SlateBlue => lin_bytes(0x28, 0x62, 0x8f),
            InkJoyGelPen::Blue => lin_bytes(0x32, 0x55, 0xa4),
            InkJoyGelPen::BrightBlue => lin_bytes(0x47, 0xb7, 0xe6),
            InkJoyGelPen::Teal => lin_bytes(0x00, 0x9b, 0xa8),
            InkJoyGelPen::Purple => lin_bytes(0x78, 0x5b, 0xa7),
            InkJoyGelPen::Cocoa => lin_bytes(0x8e, 0x61, 0x5e),
            InkJoyGelPen::Black => lin_bytes(0x37, 0x36, 0x3d),
            InkJoyGelPen::WhiteCanvas => lin_bytes(0xfc, 0xfc, 0xfc),
        }
    }

    open spec fn spec_available() -> Seq<InkJoyGelPen> {
        seq![
            InkJoyGelPen::Red,
            InkJoyGelPen::Berry,
            InkJoyGelPen::Pink,
            InkJoyGelPen::Orange,
            InkJoyGelPen::Yellow,
            InkJoyGelPen::Green,
            InkJoyGelPen::Lime,
            InkJoyGelPen::SlateBlue,
            InkJoyGelPen::Blue,
            InkJoyGelPen::BrightBlue,
            InkJoyGelPen::Teal,
            InkJoyGelPen::Purple,
            InkJoyGelPen::Cocoa,
            InkJoyGelPen::Black,
            InkJoyGelPen::WhiteCanvas,
        ]
    }

    open spec fn spec_palette_colors() -> Seq<PerceptualColor> {
        Seq::new(
            InkJoyGelPen::spec_available().len(),
            |i: int| spec_perceptual(InkJoyGelPen::spec_available()[i].spec_rgb()),
        )
    }

    proof fn palette_colors_law() {
    }

    fn available_colors() -> (r: Vec<InkJoyGelPen>) {
        let mut v: Vec<InkJoyGelPen> = Vec::new();
        v.push(InkJoyGelPen::Red);
        v.push(InkJoyGelPen::Berry);
        v.push(InkJoyGelPen::Pink);
        v.push(InkJoyGelPen::Orange);
        v.push(InkJoyGelPen::Yellow);
        v.push(InkJoyGelPen::Green);
        v.push(InkJoyGelPen::Lime);
        v.push(InkJoyGelPen::SlateBlue);
        v.push(InkJoyGelPen::Blue);
        v.push(InkJoyGelPen::BrightBlue);
        v.push(InkJoyGelPen::Teal);
        v.push(InkJoyGelPen::Purple);
        v.push(InkJoyGelPen::Cocoa);
        v.push(InkJoyGelPen::Black);
        v.push(InkJoyGelPen::WhiteCanvas);
        proof {
            assert(v@ =~= InkJoyGelPen::spec_available());
        }
        v
    }

    fn rgb_color(&self) -> (r: LinearColor) {
        match self {
            InkJoyGelPen::Red => linear_from_bytes(0xd1, 0x24, 0x31),
            InkJoyGelPen::Berry => linear_from_bytes(0xc1, 0x52, 0x9e),
            InkJoyGelPen::Pink => linear_from_bytes(0xd8, 0x40, 0x8c),
            InkJoyGelPen::Orange => linear_from_bytes(0xf3, 0x6c, 0x38),
            InkJoyGelPen::Yellow => linear_from_bytes(0xff, 0xda, 0x3a),
            InkJoyGelPen::Green => linear_from_bytes(0x00, 0xa8, 0x5d),
            InkJoyGelPen::Lime => linear_from_bytes(0xa6, 0xd0, 0x60),
            InkJoyGelPen::SlateBlue => linear_from_bytes(0x28, 0x62, 0x8f),
            InkJoyGelPen::Blue => linear_from_bytes(0x32, 0x55, 0xa4),
            InkJoyGelPen::BrightBlue => linear_from_bytes(0x47, 0xb7, 0xe6),
            InkJoyGelPen::Teal => linear_from_bytes(0x00, 0x9b, 0xa8),
            InkJoyGelPen::Purple => linear_from_bytes(0x78, 0x5b, 0xa7),
            InkJoyGelPen::Cocoa => linear_from_bytes(0x8e, 0x61, 0x5e),
            InkJoyGelPen::Black => linear_from_bytes(0x37, 0x36, 0x3d),
            InkJoyGelPen::WhiteCanvas => linear_from_bytes(0xfc, 0xfc, 0xfc),
        }
    }

    fn rgb_pixel(&self) -> (r: (u8, u8, u8)) {
        let c = self.rgb_color();
        display_bytes(&c)
    }

    fn lab_color(&self) -> (r: PerceptualColor) {
        let c = self.rgb_color();
        perceptual_from_linear(&c)
    }

    fn closest_pen_to_color(icolor: &PerceptualColor) -> (r: InkJoyGelPen) {
        let pens = Self::available_colors();
        let mut colors: Vec<PerceptualColor> = Vec::new();
        let mut i: usize = 0;
        while i < pens.len()
            invariant
                pens@ == Self::spec_available(),
                i <= pens@.len(),
                colors@.len() == i,
                forall|k: int| 0 <= k < i ==> colors@[k] == Self::spec_palette_colors()[k],
                forall|k: int| 0 <= k < i ==> (#[trigger] colors@[k]).wf(),
            decreases pens@.len() - i,
        {
            let p = pens[i];
            let c = p.lab_color();
            colors.push(c);
            i += 1;
        }
        proof {
            assert(colors@ =~= Self::spec_palette_colors());
            lemma_best_index_props(Self::spec_palette_colors(), *icolor);
        }
        let idx = closest_index_in(&colors, icolor);
        pens[idx]
    }
}

/// An ordered pair of pens laid over each other; its displayed color is the
/// linear-light midpoint of the two pens' colors.
#[derive(Clone, Copy, Debug, PartialEq, Eq, Structural, Hash)]
pub struct InkJoyGelPenBlend {
    pub pen_a: InkJoyGelPen,
    pub pen_b: InkJoyGelPen,
}

/// The blend at position `k` of the canonical blend enumeration: the
/// Cartesian product of the pen set with itself, outer pen first.
pub open spec fn spec_blend_at(k: int) -> InkJoyGelPenBlend {
    InkJoyGelPenBlend {
        pen_a: InkJoyGelPen::spec_available()[k / 15],
        pen_b: InkJoyGelPen::spec_available()[k % 15],
    }
}

impl ColoredPen for InkJoyGelPenBlend {
    open spec fn spec_rgb(self) -> LinearColor {
        spec_blend_color(self.pen_a.spec_rgb(), self.pen_b.spec_rgb())
    }

    open spec fn spec_available() -> Seq<InkJoyGelPenBlend> {
        Seq::new(225, |k: int| spec_blend_at(k))
    }

    open spec fn spec_palette_colors() -> Seq<PerceptualColor> {
        Seq::new(225, |k: int| spec_perceptual(spec_blend_at(k).spec_rgb()))
    }

    proof fn palette_colors_law() {
    }

    fn available_colors() -> (r: Vec<InkJoyGelPenBlend>) {
        let pens = InkJoyGelPen::available_colors();
        let mut results: Vec<InkJoyGelPenBlend> = Vec::new();
        let mut i: usize = 0;
        while i < pens.len()
            invariant
                pens@ == InkJoyGelPen::spec_available(),
                pens@.len() == 15,
                i <= 15,
                results@.len() == i * 15,
                forall|k: int|
                    0 <= k < results@.len() ==> results@[k]
                        == InkJoyGelPenBlend::spec_available()[k],
            decreases 15 - i,
        {
            let mut j: usize = 0;
            while j < pens.len()
                invariant
                    pens@ == InkJoyGelPen::spec_available(),
                    pens@.len() == 15,
                    i < 15,
                    j <= 15,
                    results@.len() == i * 15 + j,
                    forall|k: int|
                        0 <= k < results@.len() ==> results@[k]
                            == InkJoyGelPenBlend::spec_available()[k],
                decreases 15 - j,
            {
                let blend = InkJoyGelPenBlend { pen_a: pens[i], pen_b: pens[j] };
                proof {
                    let k = i * 15 + j;
                    vstd::arithmetic::div_mod::lemma_fundamental_div_mod_converse(
                        k as int,
                        15,
                        i as int,
                        j as int,
                    );
                    assert(spec_blend_at(k as int) == blend);
                }
                results.push(blend);
                j += 1;
            }
            i += 1;
        }
        proof {
            assert(results@ =~= InkJoyGelPenBlend::spec_available());
        }
        results
    }

    fn rgb_color(&self) -> (r: LinearColor) {
        let ca = self.pen_a.rgb_color();
        let cb = self.pen_b.rgb_color();
        LinearColor {
            red: (ca.red + cb.red) / 2,
            green: (ca.green + cb.green) / 2,
            blue: (ca.blue + cb.blue) / 2,
        }
    }

    fn rgb_pixel(&self) -> (r: (u8, u8, u8)) {
        let c = self.rgb_color();
        display_bytes(&c)
    }

    fn lab_color(&self) -> (r: PerceptualColor) {
        let c = self.rgb_color();
        perceptual_from_linear(&c)
    }

    fn closest_pen_to_color(icolor: &PerceptualColor) -> (r: InkJoyGelPenBlend) {
        let pens = Self::available_colors();
        let mut colors: Vec<PerceptualColor> = Vec::new();
        let mut i: usize = 0;
        while i < pens.len()
            invariant
                pens@ == Self::spec_available(),
                i <= pens@.len(),
                colors@.len() == i,
                forall|k: int| 0 <= k < i ==> colors@[k] == Self::spec_palette_colors()[k],
                forall|k: int| 0 <= k < i ==> (#[trigger] colors@[k]).wf(),
            decreases pens@.len() - i,
        {
            let p = pens[i];
            let c = p.lab_color();
            colors.push(c);
            i += 1;
        }
        proof {
            assert(colors@ =~= Self::spec_palette_colors());
            lemma_best_index_props(Self::spec_palette_colors(), *icolor);
        }
        let idx = closest_index_in(&colors, icolor);
        pens[idx]
    }
}

/// The single black pen, for drawings restricted to one ink.
#[derive(Clone, Copy, Debug, PartialEq, Eq, Structural, Hash)]
pub struct InkJoyBlackGelPen {}

impl ColoredPen for InkJoyBlackGelPen {
    open spec fn spec_rgb(self) -> LinearColor {
        InkJoyGelPen::Black.spec_rgb()
    }

    open spec fn spec_available() -> Seq<InkJoyBlackGelPen> {
        seq![InkJoyBlackGelPen {  }]
    }

    open spec fn spec_palette_colors() -> Seq<PerceptualColor> {
        Seq::new(1, |i: int| spec_perceptual(InkJoyGelPen::Black.spec_rgb()))
    }

    proof fn palette_colors_law() {
    }

    fn available_colors() -> (r: Vec<InkJoyBlackGelPen>) {
        let mut v: Vec<InkJoyBlackGelPen> = Vec::new();
        v.push(InkJoyBlackGelPen {});
        proof {
            assert(v@ =~= InkJoyBlackGelPen::spec_available());
        }
        v
    }

    fn rgb_color(&self) -> (r: LinearColor) {
        InkJoyGelPen::Black.rgb_color()
    }

    fn rgb_pixel(&self) -> (r: (u8, u8, u8)) {
        let c = self.rgb_color();
        display_bytes(&c)
    }

    fn lab_color(&self) -> (r: PerceptualColor) {
        let c = self.rgb_color();
        perceptual_from_linear(&c)
    }

    fn closest_pen_to_color(icolor: &PerceptualColor) -> (r: InkJoyBlackGelPen) {
        let pens = Self::available_colors();
        let mut colors: Vec<PerceptualColor> = Vec::new();
        let mut i: usize = 0;
        while i < pens.len()
            invariant
                pens@ == Self::spec_available(),
                i <= pens@.len(),
                colors@.len() == i,
                forall|k: int| 0 <= k < i ==> colors@[k] == Self::spec_palette_colors()[k],
                forall|k: int| 0 <= k < i ==> (#[trigger] colors@[k]).wf(),
            decreases pens@.len() - i,
        {
            let p = pens[i];
            let c = p.lab_color();
            colors.push(c);
            i += 1;
        }
        proof {
            assert(colors@ =~= Self::spec_palette_colors());
            lemma_best_index_props(Self::spec_palette_colors(), *icolor);
        }
        let idx = closest_index_in(&colors, icolor);
        pens[idx]
    }
}

/// A blend restricted to the black pen paired with itself.
#[derive(Clone, Copy, Debug, PartialEq, Eq, Structural, Hash)]
pub struct InkJoyBlackGelPenBlend {
    pub pen_a: InkJoyGelPen,
    pub pen_b: InkJoyGelPen,
}

impl ColoredPen for InkJoyBlackGelPenBlend {
    open spec fn spec_rgb(self) -> LinearColor {
        InkJoyGelPen::Black.spec_rgb()
    }

    open spec fn spec_available() -> Seq<InkJoyBlackGelPenBlend> {
        seq![
            InkJoyBlackGelPenBlend { pen_a: InkJoyGelPen::Black, pen_b: InkJoyGelPen::Black },
        ]
    }

    open spec fn spec_palette_colors() -> Seq<PerceptualColor> {
        Seq::new(1, |i: int| spec_perceptual(InkJoyGelPen::Black.spec_rgb()))
    }

    proof fn palette_colors_law() {
    }

    fn available_colors() -> (r: Vec<InkJoyBlackGelPenBlend>) {
        let mut v: Vec<InkJoyBlackGelPenBlend> = Vec::new();
        v.push(InkJoyBlackGelPenBlend { pen_a: InkJoyGelPen::Black, pen_b: InkJoyGelPen::Black });
        proof {
            assert(v@ =~= InkJoyBlackGelPenBlend::spec_available());
        }
        v
    }

    fn rgb_color(&self) -> (r: LinearColor) {
        InkJoyGelPen::Black.rgb_color()
    }

    fn rgb_pixel(&self) -> (r: (u8, u8, u8)) {
        let c = self.rgb_color();
        display_bytes(&c)
    }

    fn lab_color(&self) -> (r: PerceptualColor) {
        let c = self.rgb_color();
        perceptual_from_linear(&c)
    }

    fn closest_pen_to_color(icolor: &PerceptualColor) -> (r: InkJoyBlackGelPenBlend) {
        let pens = Self::available_colors();
        let mut colors: Vec<PerceptualColor> = Vec::new();
        let mut i: usize = 0;
        while i < pens.len()
            invariant
                pens@ == Self::spec_available(),
                i <= pens@.len(),
                colors@.len() == i,
                forall|k: int| 0 <= k < i ==> colors@[k] == Self::spec_palette_colors()[k],
                forall|k: int| 0 <= k < i ==> (#[trigger] colors@[k]).wf(),
            decreases pens@.len() - i,
        {
            let p = pens[i];
            let c = p.lab_color();
            colors.push(c);
            i += 1;
        }
        proof {
            assert(colors@ =~= Self::spec_palette_colors());
            lemma_best_index_props(Self::spec_palette_colors(), *icolor);
        }
        let idx = closest_index_in(&colors, icolor);
        pens[idx]
    }
}

/// Matching the perceptual color of any entry of the blend palette returns a
/// blend at distance zero from it, whose color therefore equals the queried
/// entry's own color. Ties go to the earliest entry, so the returned value
/// may be a different pair with the identical color.
pub proof fn lemma_match_own_color_distance_zero(i: int)
    requires
        0 <= i < InkJoyGelPenBlend::spec_available().len(),
    ensures
        ({
            let cols = InkJoyGelPenBlend::spec_palette_colors();
            let m = best_index(cols, cols[i]);
            distance_sq(cols[m], cols[i]) == 0 && cols[m] == cols[i]
        }),
{
    let cols = InkJoyGelPenBlend::spec_palette_colors();
    let c = cols[i];
    lemma_best_index_props(cols, c);
    let m = best_index(cols, c);
    assert(distance_sq(cols[m], c) <= distance_sq(cols[i], c));
    assert(distance_sq(c, c) == 0);
    lemma_distance_sq_nonneg(cols[m], c);
    lemma_distance_sq_zero_iff_eq(cols[m], c);
}

} // verus!
