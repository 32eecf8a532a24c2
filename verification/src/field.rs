//! The direction field: a deterministic, seedable map from normalized image
//! coordinates to a near-unit direction vector that orients hatch strokes.
//!
//! The default field evaluates a multi-octave, turbulence-displaced integer
//! value noise at the query point and quantizes the result to one of 64
//! precomputed unit directions covering the full circle. The same seed and
//! the same coordinates always give bit-identical answers.

use vstd::prelude::*;
use crate::geometry::Vec2;

verus! {

/// Fixed-point scale of a normalized coordinate: queries live in
/// `0 ..= NORM_ONE`.
pub const NORM_ONE: u64 = 65536;

/// A vector is a unit vector up to fixed-point rounding: its squared length
/// differs from the square of `NORM_ONE` by less than one part in `NORM_ONE`,
/// and each component is at most one unit long.
pub open spec fn near_unit(v: Vec2) -> bool {
    &&& 4294901760 <= v.x * v.x + v.y * v.y <= 4295032832
    &&& -65536 <= v.x <= 65536
    &&& -65536 <= v.y <= 65536
}

/// Every near-unit vector has a component of magnitude at least half a unit.
pub proof fn lemma_near_unit_component(v: Vec2)
    requires
        near_unit(v),
    ensures
        v.x >= 32768 || v.x <= -32768 || v.y >= 32768 || v.y <= -32768,
{
    assert((-32768 < v.x < 32768 && -32768 < v.y < 32768) ==> v.x * v.x + v.y * v.y < 4294901760)
        by (nonlinear_arith);
}

/// The 64 precomputed unit directions, at equally spaced angles over the
/// full circle (the midpoints of 64 equal arcs starting at the negative
/// x-axis).
pub open spec fn spec_dir_table() -> Seq<Vec2> {
    seq![
        Vec2 { x: -65457i64, y: -3216i64 },
        Vec2 { x: -64827i64, y: -9616i64 },
        Vec2 { x: -63572i64, y: -15924i64 },
        Vec2 { x: -61705i64, y: -22078i64 },
        Vec2 { x: -59244i64, y: -28020i64 },
        Vec2 { x: -56212i64, y: -33692i64 },
        Vec2 { x: -52639i64, y: -39040i64 },
        Vec2 { x: -48559i64, y: -44011i64 },
        Vec2 { x: -44011i64, y: -48559i64 },
        Vec2 { x: -39040i64, y: -52639i64 },
        Vec2 { x: -33692i64, y: -56212i64 },
        Vec2 { x: -28020i64, y: -59244i64 },
        Vec2 { x: -22078i64, y: -61705i64 },
        Vec2 { x: -15924i64, y: -63572i64 },
        Vec2 { x: -9616i64, y: -64827i64 },
        Vec2 { x: -3216i64, y: -65457i64 },
        Vec2 { x: 3216i64, y: -65457i64 },
        Vec2 { x: 9616i64, y: -64827i64 },
        Vec2 { x: 15924i64, y: -63572i64 },
        Vec2 { x: 22078i64, y: -61705i64 },
        Vec2 { x: 28020i64, y: -59244i64 },
        Vec2 { x: 33692i64, y: -56212i64 },
        Vec2 { x: 39040i64, y: -52639i64 },
        Vec2 { x: 44011i64, y: -48559i64 },
        Vec2 { x: 48559i64, y: -44011i64 },
        Vec2 { x: 52639i64, y: -39040i64 },
        Vec2 { x: 56212i64, y: -33692i64 },
        Vec2 { x: 59244i64, y: -28020i64 },
        Vec2 { x: 61705i64, y: -22078i64 },
        Vec2 { x: 63572i64, y: -15924i64 },
        Vec2 { x: 64827i64, y: -9616i64 },
        Vec2 { x: 65457i64, y: -3216i64 },
        Vec2 { x: 65457i64, y: 3216i64 },
        Vec2 { x: 64827i64, y: 9616i64 },
        Vec2 { x: 63572i64, y: 15924i64 },
        Vec2 { x: 61705i64, y: 22078i64 },
        Vec2 { x: 59244i64, y: 28020i64 },
        Vec2 { x: 56212i64, y: 33692i64 },
        Vec2 { x: 52639i64, y: 39040i64 },
        Vec2 { x: 48559i64, y: 44011i64 },
        Vec2 { x: 44011i64, y: 48559i64 },
        Vec2 { x: 39040i64, y: 52639i64 },
        Vec2 { x: 33692i64, y: 56212i64 },
        Vec2 { x: 28020i64, y: 59244i64 },
        Vec2 { x: 22078i64, y: 61705i64 },
        Vec2 { x: 15924i64, y: 63572i64 },
        Vec2 { x: 9616i64, y: 64827i64 },
        Vec2 { x: 3216i64, y: 65457i64 },
        Vec2 { x: -3216i64, y: 65457i64 },
        Vec2 { x: -9616i64, y: 64827i64 },
        Vec2 { x: -15924i64, y: 63572i64 },
        Vec2 { x: -22078i64, y: 61705i64 },
        Vec2 { x: -28020i64, y: 59244i64 },
        Vec2 { x: -33692i64, y: 56212i64 },
        Vec2 { x: -39040i64, y: 52639i64 },
        Vec2 { x: -44011i64, y: 48559i64 },
        Vec2 { x: -48559i64, y: 44011i64 },
        Vec2 { x: -52639i64, y: 39040i64 },
        Vec2 { x: -56212i64, y: 33692i64 },
        Vec2 { x: -59244i64, y: 28020i64 },
        Vec2 { x: -61705i64, y: 22078i64 },
        Vec2 { x: -63572i64, y: 15924i64 },
        Vec2 { x: -64827i64, y: 9616i64 },
        Vec2 { x: -65457i64, y: 3216i64 },
    ]
}

/// Looks up one precomputed unit direction.
fn dir_for_index(m: u64) -> (r: Vec2)
    requires
        m < 64,
    ensures
        r == spec_dir_table()[m as int],
        near_unit(r),
{
    match m {
        0 => {
            proof {
                assert((-65457int) * (-65457int) + (-3216int) * (-3216int) == 4294961505int) by (nonlinear_arith);
            }
            Vec2 { x: -65457i64, y: -3216i64 }
        },
        1 => {
            proof {
                assert((-64827int) * (-64827int) + (-9616int) * (-9616int) == 4295007385int) by (nonlinear_arith);
            }
            Vec2 { x: -64827i64, y: -9616i64 }
        },
        2 => {
            proof {
                assert((-63572int) * (-63572int) + (-15924int) * (-15924int) == 4294972960int) by (nonlinear_arith);
            }
            Vec2 { x: -63572i64, y: -15924i64 }
        },
        3 => {
            proof {
                assert((-61705int) * (-61705int) + (-22078int) * (-22078int) == 4294945109int) by (nonlinear_arith);
            }
            Vec2 { x: -61705i64, y: -22078i64 }
        },
        4 => {
            proof {
                assert((-59244int) * (-59244int) + (-28020int) * (-28020int) == 4294971936int) by (nonlinear_arith);
            }
            Vec2 { x: -59244i64, y: -28020i64 }
        },
        5 => {
            proof {
                assert((-56212int) * (-56212int) + (-33692int) * (-33692int) == 4294939808int) by (nonlinear_arith);
            }
            Vec2 { x: -56212i64, y: -33692i64 }
        },
        6 => {
            proof {
                assert((-52639int) * (-52639int) + (-39040int) * (-39040int) == 4294985921int) by (nonlinear_arith);
            }
            Vec2 { x: -52639i64, y: -39040i64 }
        },
        7 => {
            proof {
                assert((-48559int) * (-48559int) + (-44011int) * (-44011int) == 4294944602int) by (nonlinear_arith);
            }
            Vec2 { x: -48559i64, y: -44011i64 }
        },
        8 => {
            proof {
                assert((-44011int) * (-44011int) + (-48559int) * (-48559int) == 4294944602int) by (nonlinear_arith);
            }
            Vec2 { x: -44011i64, y: -48559i64 }
        },
        9 => {
            proof {
                assert((-39040int) * (-39040int) + (-52639int) * (-52639int) == 4294985921int) by (nonlinear_arith);
            }
            Vec2 { x: -39040i64, y: -52639i64 }
        },
        10 => {
            proof {
                assert((-33692int) * (-33692int) + (-56212int) * (-56212int) == 4294939808int) by (nonlinear_arith);
            }
            Vec2 { x: -33692i64, y: -56212i64 }
        },
        11 => {
            proof {
                assert((-28020int) * (-28020int) + (-59244int) * (-59244int) == 4294971936int) by (nonlinear_arith);
            }
            Vec2 { x: -28020i64, y: -59244i64 }
        },
        12 => {
            proof {
                assert((-22078int) * (-22078int) + (-61705int) * (-61705int) == 4294945109int) by (nonlinear_arith);
            }
            Vec2 { x: -22078i64, y: -61705i64 }
        },
        13 => {
            proof {
                assert((-15924int) * (-15924int) + (-63572int) * (-63572int) == 4294972960int) by (nonlinear_arith);
            }
            Vec2 { x: -15924i64, y: -63572i64 }
        },
        14 => {
            proof {
                assert((-9616int) * (-9616int) + (-64827int) * (-64827int) == 4295007385int) by (nonlinear_arith);
            }
            Vec2 { x: -9616i64, y: -64827i64 }
        },
        15 => {
            proof {
                assert((-3216int) * (-3216int) + (-65457int) * (-65457int) == 4294961505int) by (nonlinear_arith);
            }
            Vec2 { x: -3216i64, y: -65457i64 }
        },
        16 => {
            proof {
                assert((3216int) * (3216int) + (-65457int) * (-65457int) == 4294961505int) by (nonlinear_arith);
            }
            Vec2 { x: 3216i64, y: -65457i64 }
        },
        17 => {
            proof {
                assert((9616int) * (9616int) + (-64827int) * (-64827int) == 4295007385int) by (nonlinear_arith);
            }
            Vec2 { x: 9616i64, y: -64827i64 }
        },
        18 => {
            proof {
                assert((15924int) * (15924int) + (-63572int) * (-63572int) == 4294972960int) by (nonlinear_arith);
            }
            Vec2 { x: 15924i64, y: -63572i64 }
        },
        19 => {
            proof {
                assert((22078int) * (22078int) + (-61705int) * (-61705int) == 4294945109int) by (nonlinear_arith);
            }
            Vec2 { x: 22078i64, y: -61705i64 }
        },
        20 => {
            proof {
                assert((28020int) * (28020int) + (-59244int) * (-59244int) == 4294971936int) by (nonlinear_arith);
            }
            Vec2 { x: 28020i64, y: -59244i64 }
        },
        21 => {
            proof {
                assert((33692int) * (33692int) + (-56212int) * (-56212int) == 4294939808int) by (nonlinear_arith);
            }
            Vec2 { x: 33692i64, y: -56212i64 }
        },
        22 => {
            proof {
                assert((39040int) * (39040int) + (-52639int) * (-52639int) == 4294985921int) by (nonlinear_arith);
            }
            Vec2 { x: 39040i64, y: -52639i64 }
        },
        23 => {
            proof {
                assert((44011int) * (44011int) + (-48559int) * (-48559int) == 4294944602int) by (nonlinear_arith);
            }
            Vec2 { x: 44011i64, y: -48559i64 }
        },
        24 => {
            proof {
                assert((48559int) * (48559int) + (-44011int) * (-44011int) == 4294944602int) by (nonlinear_arith);
            }
            Vec2 { x: 48559i64, y: -44011i64 }
        },
        25 => {
            proof {
                assert((52639int) * (52639int) + (-39040int) * (-39040int) == 4294985921int) by (nonlinear_arith);
            }
            Vec2 { x: 52639i64, y: -39040i64 }
        },
        26 => {
            proof {
                assert((56212int) * (56212int) + (-33692int) * (-33692int) == 4294939808int) by (nonlinear_arith);
            }
            Vec2 { x: 56212i64, y: -33692i64 }
        },
        27 => {
            proof {
                assert((59244int) * (59244int) + (-28020int) * (-28020int) == 4294971936int) by (nonlinear_arith);
            }
            Vec2 { x: 59244i64, y: -28020i64 }
        },
        28 => {
            proof {
                assert((61705int) * (61705int) + (-22078int) * (-22078int) == 4294945109int) by (nonlinear_arith);
            }
            Vec2 { x: 61705i64, y: -22078i64 }
        },
        29 => {
            proof {
                assert((63572int) * (63572int) + (-15924int) * (-15924int) == 4294972960int) by (nonlinear_arith);
            }
            Vec2 { x: 63572i64, y: -15924i64 }
        },
        30 => {
            proof {
                assert((64827int) * (64827int) + (-9616int) * (-9616int) == 4295007385int) by (nonlinear_arith);
            }
            Vec2 { x: 64827i64, y: -9616i64 }
        },
        31 => {
            proof {
                assert((65457int) * (65457int) + (-3216int) * (-3216int) == 4294961505int) by (nonlinear_arith);
            }
            Vec2 { x: 65457i64, y: -3216i64 }
        },
        32 => {
            proof {
                assert((65457int) * (65457int) + (3216int) * (3216int) == 4294961505int) by (nonlinear_arith);
            }
            Vec2 { x: 65457i64, y: 3216i64 }
        },
        33 => {
            proof {
                assert((64827int) * (64827int) + (9616int) * (9616int) == 4295007385int) by (nonlinear_arith);
            }
            Vec2 { x: 64827i64, y: 9616i64 }
        },
        34 => {
            proof {
                assert((63572int) * (63572int) + (15924int) * (15924int) == 4294972960int) by (nonlinear_arith);
            }
            Vec2 { x: 63572i64, y: 15924i64 }
        },
        35 => {
            proof {
                assert((61705int) * (61705int) + (22078int) * (22078int) == 4294945109int) by (nonlinear_arith);
            }
            Vec2 { x: 61705i64, y: 22078i64 }
        },
        36 => {
            proof {
                assert((59244int) * (59244int) + (28020int) * (28020int) == 4294971936int) by (nonlinear_arith);
            }
            Vec2 { x: 59244i64, y: 28020i64 }
        },
        37 => {
            proof {
                assert((56212int) * (56212int) + (33692int) * (33692int) == 4294939808int) by (nonlinear_arith);
            }
            Vec2 { x: 56212i64, y: 33692i64 }
        },
        38 => {
            proof {
                assert((52639int) * (52639int) + (39040int) * (39040int) == 4294985921int) by (nonlinear_arith);
            }
            Vec2 { x: 52639i64, y: 39040i64 }
        },
        39 => {
            proof {
                assert((48559int) * (48559int) + (44011int) * (44011int) == 4294944602int) by (nonlinear_arith);
            }
            Vec2 { x: 48559i64, y: 44011i64 }
        },
        40 => {
            proof {
                assert((44011int) * (44011int) + (48559int) * (48559int) == 4294944602int) by (nonlinear_arith);
            }
            Vec2 { x: 44011i64, y: 48559i64 }
        },
        41 => {
            proof {
                assert((39040int) * (39040int) + (52639int) * (52639int) == 4294985921int) by (nonlinear_arith);
            }
            Vec2 { x: 39040i64, y: 52639i64 }
        },
        42 => {
            proof {
                assert((33692int) * (33692int) + (56212int) * (56212int) == 4294939808int) by (nonlinear_arith);
            }
            Vec2 { x: 33692i64, y: 56212i64 }
        },
        43 => {
            proof {
                assert((28020int) * (28020int) + (59244int) * (59244int) == 4294971936int) by (nonlinear_arith);
            }
            Vec2 { x: 28020i64, y: 59244i64 }
        },
        44 => {
            proof {
                assert((22078int) * (22078int) + (61705int) * (61705int) == 4294945109int) by (nonlinear_arith);
            }
            Vec2 { x: 22078i64, y: 61705i64 }
        },
        45 => {
            proof {
                assert((15924int) * (15924int) + (63572int) * (63572int) == 4294972960int) by (nonlinear_arith);
            }
            Vec2 { x: 15924i64, y: 63572i64 }
        },
        46 => {
            proof {
                assert((9616int) * (9616int) + (64827int) * (64827int) == 4295007385int) by (nonlinear_arith);
            }
            Vec2 { x: 9616i64, y: 64827i64 }
        },
        47 => {
            proof {
                assert((3216int) * (3216int) + (65457int) * (65457int) == 4294961505int) by (nonlinear_arith);
            }
            Vec2 { x: 3216i64, y: 65457i64 }
        },
        48 => {
            proof {
                assert((-3216int) * (-3216int) + (65457int) * (65457int) == 4294961505int) by (nonlinear_arith);
            }
            Vec2 { x: -3216i64, y: 65457i64 }
        },
        49 => {
            proof {
                assert((-9616int) * (-9616int) + (64827int) * (64827int) == 4295007385int) by (nonlinear_arith);
            }
            Vec2 { x: -9616i64, y: 64827i64 }
        },
        50 => {
            proof {
                assert((-15924int) * (-15924int) + (63572int) * (63572int) == 4294972960int) by (nonlinear_arith);
            }
            Vec2 { x: -15924i64, y: 63572i64 }
        },
        51 => {
            proof {
                assert((-22078int) * (-22078int) + (61705int) * (61705int) == 4294945109int) by (nonlinear_arith);
            }
            Vec2 { x: -22078i64, y: 61705i64 }
        },
        52 => {
            proof {
                assert((-28020int) * (-28020int) + (59244int) * (59244int) == 4294971936int) by (nonlinear_arith);
            }
            Vec2 { x: -28020i64, y: 59244i64 }
        },
        53 => {
            proof {
                assert((-33692int) * (-33692int) + (56212int) * (56212int) == 4294939808int) by (nonlinear_arith);
            }
            Vec2 { x: -33692i64, y: 56212i64 }
        },
        54 => {
            proof {
                assert((-39040int) * (-39040int) + (52639int) * (52639int) == 4294985921int) by (nonlinear_arith);
            }
            Vec2 { x: -39040i64, y: 52639i64 }
        },
        55 => {
            proof {
                assert((-44011int) * (-44011int) + (48559int) * (48559int) == 4294944602int) by (nonlinear_arith);
            }
            Vec2 { x: -44011i64, y: 48559i64 }
        },
        56 => {
            proof {
                assert((-48559int) * (-48559int) + (44011int) * (44011int) == 4294944602int) by (nonlinear_arith);
            }
            Vec2 { x: -48559i64, y: 44011i64 }
        },
        57 => {
            proof {
                assert((-52639int) * (-52639int) + (39040int) * (39040int) == 4294985921int) by (nonlinear_arith);
            }
            Vec2 { x: -52639i64, y: 39040i64 }
        },
        58 => {
            proof {
                assert((-56212int) * (-56212int) + (33692int) * (33692int) == 4294939808int) by (nonlinear_arith);
            }
            Vec2 { x: -56212i64, y: 33692i64 }
        },
        59 => {
            proof {
                assert((-59244int) * (-59244int) + (28020int) * (28020int) == 4294971936int) by (nonlinear_arith);
            }
            Vec2 { x: -59244i64, y: 28020i64 }
        },
        60 => {
            proof {
                assert((-61705int) * (-61705int) + (22078int) * (22078int) == 4294945109int) by (nonlinear_arith);
            }
            Vec2 { x: -61705i64, y: 22078i64 }
        },
        61 => {
            proof {
                assert((-63572int) * (-63572int) + (15924int) * (15924int) == 4294972960int) by (nonlinear_arith);
            }
            Vec2 { x: -63572i64, y: 15924i64 }
        },
        62 => {
            proof {
                assert((-64827int) * (-64827int) + (9616int) * (9616int) == 4295007385int) by (nonlinear_arith);
            }
            Vec2 { x: -64827i64, y: 9616i64 }
        },
        63 => {
            proof {
                assert((-65457int) * (-65457int) + (3216int) * (3216int) == 4294961505int) by (nonlinear_arith);
            }
            Vec2 { x: -65457i64, y: 3216i64 }
        },
        _ => {
            proof {
                assert((65536int) * (65536int) + (0int) * (0int) == 4294967296int) by (nonlinear_arith);
            }
            Vec2 { x: 65536i64, y: 0i64 }
        },
    }
}

/// One scrambling round of the lattice hash: a xorshift fold followed by a
/// multiplicative mix, kept below `2^32`.
pub open spec fn spec_mix32(h: u64) -> u64 {
    ((((h ^ (h >> 16)) as int) * 0x45d9f3b) % 0x1_0000_0000) as u64
}

/// Applies one scrambling round.
fn mix32(h: u64) -> (r: u64)
    requires
        h < 0x1_0000_0000,
    ensures
        r == spec_mix32(h),
        r < 0x1_0000_0000,
{
    proof {
        assert(h < 0x1_0000_0000 ==> (h ^ (h >> 16u64)) < 0x1_0000_0000) by (bit_vector);
    }
    ((h ^ (h >> 16)) * 0x45d9f3b) % 0x1_0000_0000
}

/// The pseudo-random value of one lattice corner, below `2^16`, fully
/// determined by the seed and the corner coordinates.
pub open spec fn spec_corner(seed: u64, x: u64, y: u64) -> u64 {
    (spec_mix32(
        spec_mix32(
            ((seed % 0x1_0000_0000) + (x as int) * 65539 + (y as int) * 16843027) as u64
                % 0x1_0000_0000,
        ),
    ) % 65536) as u64
}

/// Computes one lattice corner value.
pub fn corner_hash(seed: u64, x: u64, y: u64) -> (r: u64)
    requires
        x < 0x1_0000_0000,
        y < 0x1_0000_0000,
    ensures
        r == spec_corner(seed, x, y),
        r < 65536,
{
    let h = ((seed % 0x1_0000_0000) + x * 65539 + y * 16843027) % 0x1_0000_0000;
    mix32(mix32(h)) % 65536
}

/// Bilinear integer value noise of one octave with lattice cell size `cs`:
/// the four corner values around the query point, blended by its fractional
/// position inside the cell, reduced below `2^16`.
pub open spec fn spec_value_noise(seed: u64, x: u64, y: u64, cs: u64) -> int {
    let h00 = spec_corner(seed, x / cs, y / cs);
    let h10 = spec_corner(seed, (x / cs + 1) as u64, y / cs);
    let h01 = spec_corner(seed, x / cs, (y / cs + 1) as u64);
    let h11 = spec_corner(seed, (x / cs + 1) as u64, (y / cs + 1) as u64);
    let fx = (x % cs) as int;
    let fy = (y % cs) as int;
    let top = h00 * ((cs as int) - fx) + h10 * fx;
    let bot = h01 * ((cs as int) - fx) + h11 * fx;
    ((top * ((cs as int) - fy) + bot * fy) / ((cs as int) * (cs as int))) % 65536
}

/// Computes one octave of value noise.
fn value_noise(seed: u64, x: u64, y: u64, cs: u64) -> (r: u64)
    requires
        1 <= cs <= 16384,
        x <= 132000,
        y <= 132000,
    ensures
        r as int == spec_value_noise(seed, x, y, cs),
        r < 65536,
{
    let cx = x / cs;
    let cy = y / cs;
    let fx = x % cs;
    let fy = y % cs;
    let h00 = corner_hash(seed, cx, cy);
    let h10 = corner_hash(seed, cx + 1, cy);
    let h01 = corner_hash(seed, cx, cy + 1);
    let h11 = corner_hash(seed, cx + 1, cy + 1);
    proof {
        assert(h00 * (cs - fx) + h10 * fx <= 65535 * 16384 && h01 * (cs - fx) + h11 * fx <= 65535
            * 16384) by (nonlinear_arith)
            requires
                h00 < 65536 && h10 < 65536 && h01 < 65536 && h11 < 65536,
                0 <= fx <= cs <= 16384,
        ;
    }
    let top = h00 * (cs - fx) + h10 * fx;
    let bot = h01 * (cs - fx) + h11 * fx;
    proof {
        assert(top * (cs - fy) + bot * fy <= 65535 * 16384 * 16384) by (nonlinear_arith)
            requires
                0 <= top <= 65535 * 16384 && 0 <= bot <= 65535 * 16384,
                0 <= fy <= cs <= 16384,
        ;
        assert(1 <= cs * cs <= 16384 * 16384) by (nonlinear_arith)
            requires
                1 <= cs <= 16384,
        ;
    }
    ((top * (cs - fy) + bot * fy) / (cs * cs)) % 65536
}

/// The direction the seeded noise field assigns to a normalized point: two
/// auxiliary noise octaves displace the query (the turbulence), three
/// octaves of value noise are blended at the displaced point, and the blend
/// picks one of the 64 precomputed unit directions.
pub open spec fn spec_noise_direction(seed: u64, x: u64, y: u64) -> Vec2 {
    let s = seed % 0x1_0000_0000;
    let dx = spec_value_noise((s + 101) as u64, x, y, 8192) / 64;
    let dy = spec_value_noise((s + 202) as u64, x, y, 8192) / 64;
    let x2 = (x + dx) as u64;
    let y2 = (y + dy) as u64;
    let n = 4 * spec_value_noise(s as u64, x2, y2, 16384) + 2 * spec_value_noise(
        (s + 303) as u64,
        x2,
        y2,
        8192,
    ) + spec_value_noise((s + 404) as u64, x2, y2, 4096);
    spec_dir_table()[n / 7168]
}

/// Evaluates the seeded noise field at a normalized point.
fn noise_direction(seed: u64, x: u64, y: u64) -> (r: Vec2)
    requires
        x <= NORM_ONE,
        y <= NORM_ONE,
    ensures
        r == spec_noise_direction(seed, x, y),
        near_unit(r),
{
    let s = seed % 0x1_0000_0000;
    let dx = value_noise(s + 101, x, y, 8192) / 64;
    let dy = value_noise(s + 202, x, y, 8192) / 64;
    let x2 = x + dx;
    let y2 = y + dy;
    let n0 = value_noise(s, x2, y2, 16384);
    let n1 = value_noise(s + 303, x2, y2, 8192);
    let n2 = value_noise(s + 404, x2, y2, 4096);
    let n = 4 * n0 + 2 * n1 + n2;
    let idx = n / 7168;
    assert(idx < 64);
    dir_for_index(idx)
}

/// A pluggable orientation strategy: a deterministic map from normalized
/// coordinates to a near-unit direction.
pub trait DirectionField: Sized {
    /// The direction the field assigns to a normalized query point.
    spec fn spec_direction(&self, x: u64, y: u64) -> Vec2;

    /// Evaluates the field; the same receiver and coordinates always give
    /// the same near-unit vector.
    fn direction(&self, x: u64, y: u64) -> (r: Vec2)
        requires
            x <= NORM_ONE,
            y <= NORM_ONE,
        ensures
            r == self.spec_direction(x, y),
            near_unit(r),
    ;
}

/// The default field: seeded, turbulence-displaced fractal value noise.
pub struct NoiseField {
    pub seed: u64,
}

impl DirectionField for NoiseField {
    open spec fn spec_direction(&self, x: u64, y: u64) -> Vec2 {
        spec_noise_direction(self.seed, x, y)
    }

    fn direction(&self, x: u64, y: u64) -> (r: Vec2) {
        noise_direction(self.seed, x, y)
    }
}

/// A constant field: every query returns the same precomputed direction.
pub struct ConstantField {
    pub angle_index: u64,
}

impl DirectionField for ConstantField {
    open spec fn spec_direction(&self, x: u64, y: u64) -> Vec2 {
        spec_dir_table()[(self.angle_index % 64) as int]
    }

    fn direction(&self, x: u64, y: u64) -> (r: Vec2) {
        dir_for_index(self.angle_index % 64)
    }
}

} // verus!
