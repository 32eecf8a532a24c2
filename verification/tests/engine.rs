use inkhatch::colormapper::{
    ColoredPen, InkJoyBlackGelPen, InkJoyBlackGelPenBlend, InkJoyGelPen, InkJoyGelPenBlend,
    distance_sq_between,
};
use inkhatch::dilution::estimate_dilution;
use inkhatch::field::{ConstantField, DirectionField, NoiseField};
use inkhatch::geometry::{Box2, Vec2, box_intersection};
use inkhatch::hatch::{LineSegment, group_layers, line_spacing};
use inkhatch::render::render;
use inkhatch::sampler::{ImageGrid, compute_pixel_color_and_brightness, sample_block};

const F: i64 = 65536;

fn uniform_image(w: usize, h: usize, px: (u8, u8, u8)) -> ImageGrid {
    ImageGrid { width: w, height: h, pixels: vec![px; w * h] }
}

#[test]
fn available_palette_sizes() {
    assert_eq!(InkJoyGelPen::available_colors().len(), 15);
    assert_eq!(InkJoyGelPenBlend::available_colors().len(), 225);
    assert_eq!(InkJoyBlackGelPen::available_colors().len(), 1);
    assert_eq!(InkJoyBlackGelPenBlend::available_colors().len(), 1);
}

#[test]
fn rgb_pixel_recovers_definition_bytes() {
    assert_eq!(InkJoyGelPen::Red.rgb_pixel(), (0xd1, 0x24, 0x31));
    assert_eq!(InkJoyGelPen::WhiteCanvas.rgb_pixel(), (0xfc, 0xfc, 0xfc));
    assert_eq!(InkJoyGelPen::Black.rgb_pixel(), (0x37, 0x36, 0x3d));
}

#[test]
fn blend_display_color_rounds_midpoint() {
    let blend = InkJoyGelPenBlend { pen_a: InkJoyGelPen::Red, pen_b: InkJoyGelPen::Blue };
    assert_eq!(blend.rgb_pixel(), (130, 61, 107));
}

#[test]
fn blend_color_is_symmetric_for_all_pairs() {
    let pens = InkJoyGelPen::available_colors();
    for &a in &pens {
        for &b in &pens {
            let ab = InkJoyGelPenBlend { pen_a: a, pen_b: b };
            let ba = InkJoyGelPenBlend { pen_a: b, pen_b: a };
            assert_eq!(ab.rgb_color(), ba.rgb_color());
            assert!(ab != ba || a == b);
        }
    }
}

#[test]
fn matching_own_color_returns_distance_zero() {
    for pen in InkJoyGelPen::available_colors() {
        let own = InkJoyGelPenBlend { pen_a: pen, pen_b: pen };
        let target = own.lab_color();
        let matched = InkJoyGelPenBlend::closest_pen_to_color(&target);
        assert_eq!(distance_sq_between(&matched.lab_color(), &target), 0);
        assert_eq!(matched.rgb_color(), own.rgb_color());
    }
}

#[test]
fn matched_blend_is_no_farther_than_any_candidate() {
    let probe = ImageGrid { width: 1, height: 1, pixels: vec![(12, 200, 30)] };
    let target = sample_block(&probe, 0, 0, 1, 1);
    let matched = InkJoyGelPenBlend::closest_pen_to_color(&target);
    let best = distance_sq_between(&matched.lab_color(), &target);
    for cand in InkJoyGelPenBlend::available_colors() {
        assert!(best <= distance_sq_between(&cand.lab_color(), &target));
    }
}

#[test]
fn box_intersection_center_line() {
    let b = Box2 { min: Vec2 { x: 0, y: 0 }, max: Vec2 { x: F, y: F } };
    let o = Vec2 { x: -F, y: F / 2 };
    let v = Vec2 { x: F, y: 0 };
    let r = box_intersection(&b, &o, &v).unwrap();
    assert_eq!(r.0, Vec2 { x: 0, y: F / 2 });
    assert_eq!(r.1, Vec2 { x: F, y: F / 2 });
}

#[test]
fn box_intersection_offset_parallel_line_misses() {
    let b = Box2 { min: Vec2 { x: 0, y: 0 }, max: Vec2 { x: F, y: F } };
    let o = Vec2 { x: -F, y: 2 * F };
    let v = Vec2 { x: F, y: 0 };
    assert!(box_intersection(&b, &o, &v).is_none());
}

#[test]
fn box_intersection_zero_direction_is_no_intersection() {
    let b = Box2 { min: Vec2 { x: 0, y: 0 }, max: Vec2 { x: F, y: F } };
    let o = Vec2 { x: F / 2, y: F / 2 };
    let v = Vec2 { x: 0, y: 0 };
    assert!(box_intersection(&b, &o, &v).is_none());
}

#[test]
fn dilution_is_deterministic_and_proper() {
    let probe = ImageGrid { width: 1, height: 1, pixels: vec![(90, 140, 30)] };
    let target = sample_block(&probe, 0, 0, 1, 1);
    let ink = InkJoyGelPenBlend::closest_pen_to_color(&target).lab_color();
    let first = estimate_dilution(&target, &ink);
    let second = estimate_dilution(&target, &ink);
    assert_eq!(first, second);
    assert!(first.numer < 200);
}

#[test]
fn dilution_of_own_color_adopts_one_step() {
    let ink = InkJoyGelPenBlend {
        pen_a: InkJoyGelPen::Teal,
        pen_b: InkJoyGelPen::Orange,
    }.lab_color();
    assert_eq!(estimate_dilution(&ink, &ink).numer, 1);
}

#[test]
fn dilution_of_white_target_is_nearly_full() {
    let white = uniform_image(1, 1, (255, 255, 255));
    let target = sample_block(&white, 0, 0, 1, 1);
    let ink = InkJoyGelPenBlend {
        pen_a: InkJoyGelPen::WhiteCanvas,
        pen_b: InkJoyGelPen::WhiteCanvas,
    }.lab_color();
    assert_eq!(estimate_dilution(&target, &ink).numer, 199);
}

#[test]
fn sample_block_single_pixel_coordinates() {
    let probe = ImageGrid { width: 1, height: 1, pixels: vec![(10, 20, 30)] };
    let c = sample_block(&probe, 0, 0, 1, 1);
    assert_eq!((c.l, c.a, c.b), (4600, -600, 2600));
}

#[test]
fn sample_block_averages_channelwise() {
    let img = ImageGrid {
        width: 2,
        height: 1,
        pixels: vec![(255, 0, 0), (0, 0, 0)],
    };
    let c = sample_block(&img, 0, 0, 2, 1);
    assert_eq!((c.l, c.a, c.b), (130050, 65025, -65025));
}

#[test]
fn noise_field_is_seed_deterministic_and_near_unit() {
    let field = NoiseField { seed: 123456789 };
    for &(x, y) in &[(0u64, 0u64), (100, 200), (65536, 65536), (32768, 1)] {
        let v1 = field.direction(x, y);
        let v2 = field.direction(x, y);
        assert_eq!(v1, v2);
        let m = v1.x * v1.x + v1.y * v1.y;
        assert!(F * F - F <= m && m <= F * F + F);
    }
}

#[test]
fn constant_field_returns_one_near_unit_direction() {
    let field = ConstantField { angle_index: 9 };
    let a = field.direction(0, 0);
    let b = field.direction(40000, 12345);
    assert_eq!(a, b);
    let m = a.x * a.x + a.y * a.y;
    assert!(F * F - F <= m && m <= F * F + F);
}

#[test]
fn line_spacing_scales_between_bounds() {
    let probe = ImageGrid { width: 1, height: 1, pixels: vec![(255, 0, 0)] };
    let target = sample_block(&probe, 0, 0, 1, 1);
    let ink = InkJoyGelPenBlend::closest_pen_to_color(&target).lab_color();
    let dil = estimate_dilution(&target, &ink);
    assert_eq!(dil.numer, 1);
    let s = line_spacing(&dil, F, 5 * F);
    assert_eq!(s, F + (4 * F) / 200);
}

#[test]
fn group_layers_splits_by_pen_and_keeps_order() {
    let seg = |x: i64, pen: InkJoyGelPen| LineSegment { x1: x, y1: 0, x2: x, y2: 1, pen };
    let segs = vec![
        seg(1, InkJoyGelPen::Red),
        seg(2, InkJoyGelPen::Teal),
        seg(3, InkJoyGelPen::Red),
        seg(4, InkJoyGelPen::WhiteCanvas),
    ];
    let map = group_layers(&segs);
    let visible = map.visible_layers();
    assert_eq!(visible.len(), 2);
    assert_eq!(visible[0].0, InkJoyGelPen::Red);
    assert_eq!(visible[0].1.len(), 2);
    assert_eq!(visible[0].1[0].x1, 1);
    assert_eq!(visible[0].1[1].x1, 3);
    assert_eq!(visible[1].0, InkJoyGelPen::Teal);
    assert!(!visible.iter().any(|(p, _)| *p == InkJoyGelPen::WhiteCanvas));
}

#[test]
fn red_image_draws_only_red() {
    let img = uniform_image(8, 8, (255, 0, 0));
    let (blend, dil) = compute_pixel_color_and_brightness(&img, (0, 0), 4, 4);
    assert_eq!(blend.pen_a, InkJoyGelPen::Red);
    assert_eq!(blend.pen_b, InkJoyGelPen::Red);
    assert_eq!(dil.numer, 1);
    let field = NoiseField { seed: 42 };
    let map = render(&img, &field, 2, 2, F, 5 * F, 42);
    let visible = map.visible_layers();
    assert_eq!(visible.len(), 1);
    assert_eq!(visible[0].0, InkJoyGelPen::Red);
    assert!(visible[0].1.len() > 0);
}

#[test]
fn white_image_draws_nothing_visible() {
    let img = uniform_image(8, 8, (255, 255, 255));
    let (blend, _) = compute_pixel_color_and_brightness(&img, (0, 0), 4, 4);
    assert_eq!(blend.pen_a, InkJoyGelPen::WhiteCanvas);
    assert_eq!(blend.pen_b, InkJoyGelPen::WhiteCanvas);
    let field = NoiseField { seed: 7 };
    let map = render(&img, &field, 2, 2, F, 5 * F, 7);
    assert!(map.visible_layers().is_empty());
}

#[test]
fn render_is_reproducible_from_its_seed() {
    let img = uniform_image(8, 8, (30, 60, 200));
    let field = NoiseField { seed: 99 };
    let a = render(&img, &field, 2, 2, F, 5 * F, 99);
    let b = render(&img, &field, 2, 2, F, 5 * F, 99);
    let va = a.visible_layers();
    let vb = b.visible_layers();
    assert_eq!(va.len(), vb.len());
    for (la, lb) in va.iter().zip(vb.iter()) {
        assert_eq!(la.0, lb.0);
        assert_eq!(la.1, lb.1);
    }
}

#[test]
fn black_pen_kinds_match_black() {
    let black = InkJoyGelPen::Black;
    assert_eq!(InkJoyBlackGelPen {}.rgb_color(), black.rgb_color());
    let only = InkJoyBlackGelPenBlend::available_colors()[0];
    assert_eq!(only.pen_a, black);
    assert_eq!(only.pen_b, black);
    let matched = InkJoyBlackGelPen::closest_pen_to_color(&InkJoyGelPen::Red.lab_color());
    assert_eq!(matched, InkJoyBlackGelPen {});
}
