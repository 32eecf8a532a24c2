//! The brightness/dilution estimator.
//!
//! Given a block's target color and the color of the ink matched for it, the
//! estimator searches for the fraction of the block that should stay blank
//! canvas: it walks the ratio upward in fixed steps of `1 / RATIO_DENOM`,
//! each time comparing the target against the ink mixed toward pure white at
//! the *current* ratio, adopting the next trial ratio while the distance
//! still improves and stopping at the first regression. The search is
//! greedy: it can settle on a local optimum, and that behavior is part of
//! its contract.

use vstd::prelude::*;
use crate::colormapper::{PerceptualColor, distance_sq, distance_sq_between, lemma_distance_sq_nonneg};

verus! {

/// Number of dilution steps in a full unit; one step of the greedy search
/// moves the ratio by `1 / RATIO_DENOM`.
pub const RATIO_DENOM: u32 = 200;

/// Perceptual lightness of pure white, `6 * LIN_ONE`.
pub const WHITE_L: i64 = 780300;

/// The fraction of a block left as blank canvas: `numer / RATIO_DENOM`,
/// always in `[0, 1)`.
#[derive(Clone, Copy, Debug, PartialEq, Eq, Structural, Hash)]
pub struct DilutionRatio {
    pub numer: u32,
}

impl DilutionRatio {
    /// The ratio is a proper fraction.
    pub open spec fn wf(self) -> bool {
        self.numer < RATIO_DENOM
    }
}

/// The ink mixed `k / RATIO_DENOM` of the way toward pure white, with every
/// coordinate scaled by `RATIO_DENOM` so the mix is exact: white has
/// perceptual coordinates `(WHITE_L, 0, 0)`, so the chroma axes simply
/// shrink toward zero.
pub open spec fn spec_mix_toward_white(ink: PerceptualColor, k: int) -> PerceptualColor {
    PerceptualColor {
        l: (ink.l * (200 - k) + WHITE_L * k) as i64,
        a: (ink.a * (200 - k)) as i64,
        b: (ink.b * (200 - k)) as i64,
    }
}

/// A color with every coordinate scaled by `RATIO_DENOM`, for comparison
/// against the scaled mixes.
pub open spec fn spec_scale200(c: PerceptualColor) -> PerceptualColor {
    PerceptualColor { l: (c.l * 200) as i64, a: (c.a * 200) as i64, b: (c.b * 200) as i64 }
}

/// The greedy search from step `k` with best distance seen `best`: compare
/// the target against the mix at the current step; on improvement adopt the
/// next step and continue, otherwise stop at the current step. The ratio
/// never reaches one: the walk is cut off at step `199`.
pub open spec fn spec_dilution_from(
    target: PerceptualColor,
    ink: PerceptualColor,
    k: int,
    best: int,
) -> int
    decreases 200 - k,
{
    if k < 0 || k >= 199 {
        199
    } else {
        let d = distance_sq(spec_mix_toward_white(ink, k), spec_scale200(target));
        if d < best {
            spec_dilution_from(target, ink, k + 1, d)
        } else {
            k
        }
    }
}

/// The dilution chosen for a target and an ink color: the greedy search
/// started at step zero with no best distance yet.
pub open spec fn spec_dilution(target: PerceptualColor, ink: PerceptualColor) -> int {
    spec_dilution_from(target, ink, 0, 0x7fff_ffff_ffff_ffff)
}

/// Computes the ink mixed `k / RATIO_DENOM` of the way toward white, on the
/// `RATIO_DENOM`-fold scale.
fn mix_toward_white(ink: &PerceptualColor, k: u32) -> (r: PerceptualColor)
    requires
        ink.in_gamut(),
        k <= 199,
    ensures
        r == spec_mix_toward_white(*ink, k as int),
        r.wf(),
{
    proof {
        assert(0 <= ink.l * (200 - k) + 780300 * k <= 156060000 && -26010000 <= ink.a * (200 - k)
            <= 26010000 && -52020000 <= ink.b * (200 - k) <= 52020000) by (nonlinear_arith)
            requires
                0 <= ink.l <= 780300,
                -130050 <= ink.a <= 130050,
                -260100 <= ink.b <= 260100,
                0 <= k <= 199,
        ;
    }
    let ki = k as i64;
    PerceptualColor {
        l: ink.l * (200 - ki) + WHITE_L * ki,
        a: ink.a * (200 - ki),
        b: ink.b * (200 - ki),
    }
}

/// Scales a color by `RATIO_DENOM`.
fn scale200(c: &PerceptualColor) -> (r: PerceptualColor)
    requires
        c.in_gamut(),
    ensures
        r == spec_scale200(*c),
        r.wf(),
{
    PerceptualColor { l: c.l * 200, a: c.a * 200, b: c.b * 200 }
}

/// Estimates how much of a block should stay blank canvas so that the
/// matched ink, partially diluted with white, best reproduces the target.
/// The result is exactly the greedy search of `spec_dilution`: deterministic
/// in its inputs, and always a proper fraction.
pub fn estimate_dilution(target: &PerceptualColor, ink: &PerceptualColor) -> (r: DilutionRatio)
    requires
        target.in_gamut(),
        ink.in_gamut(),
    ensures
        r.numer == spec_dilution(*target, *ink),
        r.wf(),
{
    let t200 = scale200(target);
    let mut k: u32 = 0;
    let mut best: i64 = i64::MAX;
    let mut done: bool = false;
    while k < 199 && !done
        invariant
            k <= 199,
            target.in_gamut(),
            ink.in_gamut(),
            t200 == spec_scale200(*target),
            t200.wf(),
            done ==> spec_dilution(*target, *ink) == k as int,
            !done ==> spec_dilution(*target, *ink) == spec_dilution_from(
                *target,
                *ink,
                k as int,
                best as int,
            ),
        decreases 199 - k + (if done {
            0int
        } else {
            1int
        }),
    {
        let m = mix_toward_white(ink, k);
        let d = distance_sq_between(&m, &t200);
        if d < best {
            best = d;
            k = k + 1;
        } else {
            done = true;
        }
    }
    DilutionRatio { numer: k }
}

/// A target equal to the matched ink's own color yields exactly one step:
/// the first comparison is made at the start ratio, where the distance is
/// zero, so the first trial is adopted and the next comparison regresses.
pub proof fn lemma_dilution_of_own_color(c: PerceptualColor)
    ensures
        spec_dilution(c, c) == 1,
{
    let t200 = spec_scale200(c);
    let m0 = spec_mix_toward_white(c, 0);
    assert(m0 == t200);
    assert(distance_sq(m0, t200) == 0);
    let d1 = distance_sq(spec_mix_toward_white(c, 1), t200);
    lemma_distance_sq_nonneg(spec_mix_toward_white(c, 1), t200);
    assert(spec_dilution(c, c) == spec_dilution_from(c, c, 1, 0));
    assert(spec_dilution_from(c, c, 1, 0) == 1);
}

} // verus!
