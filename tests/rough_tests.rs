use excaliosa::arrowhead::ArrowheadKind;
use excaliosa::rng::LcgRng;
use excaliosa::rough::{arrowhead_passes, ellipse_passes, polygon_passes, rectangle_passes, shaft_passes, RoughnessLevel};
use excaliosa::spline::ArrowEnd;

#[test]
fn rng_first_state() {
    let mut r = LcgRng::new(0);
    assert_eq!(r.state, 0x9E3779B97F4A7C15);
    let expected = 0x9E3779B97F4A7C15u64.wrapping_mul(6364136223846793005).wrapping_add(1);
    assert_eq!(r.next_u64(), expected);
    assert_eq!(r.state, expected);
}

#[test]
fn rng_negative_seed_sign_extends() {
    let r = LcgRng::new(-1);
    assert_eq!(r.state, u64::MAX ^ 0x9E3779B97F4A7C15);
}

#[test]
fn rng_same_seed_same_thousand_floats() {
    let mut a = LcgRng::new(7);
    let mut b = LcgRng::new(7);
    for _ in 0..1000 {
        let x = a.next_bits53() as f64 / (1u64 << 53) as f64;
        let y = b.next_bits53() as f64 / (1u64 << 53) as f64;
        assert_eq!(x.to_bits(), y.to_bits());
        assert!((0.0..1.0).contains(&x));
    }
}

#[test]
fn rng_bits53_is_top_bits() {
    let mut a = LcgRng::new(42);
    let mut b = LcgRng::new(42);
    for _ in 0..100 {
        assert_eq!(a.next_bits53(), b.next_u64() >> 11);
    }
}

#[test]
fn rng_different_seeds_differ() {
    let mut a = LcgRng::new(1);
    let mut b = LcgRng::new(2);
    assert_ne!(a.next_u64(), b.next_u64());
}

#[test]
fn exact_drawings_have_one_pass() {
    for v in [polygon_passes(RoughnessLevel::Exact, 42, 4), ellipse_passes(RoughnessLevel::Exact, 42),
        rectangle_passes(RoughnessLevel::Exact, 42, true), shaft_passes(RoughnessLevel::Exact, 42),
        arrowhead_passes(RoughnessLevel::Exact, 42, ArrowheadKind::Arrow, ArrowEnd::End)] {
        assert_eq!(v.len(), 1);
        assert_eq!(v[0].jitter_percent, 0);
        assert_eq!(v[0].opacity_percent, 100);
    }
}

#[test]
fn polygon_pass_schedule() {
    let p = polygon_passes(RoughnessLevel::VeryRough, 10, 4);
    assert_eq!(p.len(), 3);
    assert_eq!((p[0].seed, p[0].jitter_percent, p[0].opacity_percent), (10, 100, 100));
    assert_eq!((p[1].seed, p[1].jitter_percent, p[1].opacity_percent), (11, 50, 85));
    assert_eq!((p[2].seed, p[2].jitter_percent, p[2].opacity_percent), (12, 30, 70));
    assert_eq!(polygon_passes(RoughnessLevel::Rough, 10, 4).len(), 2);
    assert_eq!(polygon_passes(RoughnessLevel::VeryRough, 10, 2).len(), 1);
    let wrap = polygon_passes(RoughnessLevel::Rough, i32::MAX, 4);
    assert_eq!(wrap[1].seed, i32::MIN);
}

#[test]
fn ellipse_pass_schedule() {
    let p = ellipse_passes(RoughnessLevel::VeryRough, 5);
    assert_eq!(p.len(), 3);
    assert_eq!((p[1].jitter_percent, p[1].roughness_percent, p[1].opacity_percent), (150, 100, 85));
    assert_eq!((p[2].jitter_percent, p[2].roughness_percent, p[2].opacity_percent), (120, 70, 70));
}

#[test]
fn rectangle_pass_schedule() {
    let p = rectangle_passes(RoughnessLevel::VeryRough, 3, true);
    assert_eq!(p.len(), 2);
    assert!(p[0].preserve_vertices && !p[0].overlay);
    assert!(!p[1].preserve_vertices && p[1].overlay);
    assert_eq!((p[1].seed, p[1].opacity_percent), (4, 85));
    let q = rectangle_passes(RoughnessLevel::Rough, 3, false);
    assert!(!q[0].preserve_vertices);
}

#[test]
fn shaft_and_cap_schedules() {
    let s = shaft_passes(RoughnessLevel::VeryRough, 1);
    assert_eq!(s.len(), 3);
    assert_eq!(s[0].jitter_percent, 0);
    assert_eq!((s[1].seed, s[1].opacity_percent), (1, 85));
    assert_eq!((s[2].seed, s[2].jitter_percent, s[2].opacity_percent), (1 + 0x55555555, 60, 70));
    let start = arrowhead_passes(RoughnessLevel::Rough, 1, ArrowheadKind::Triangle, ArrowEnd::Start);
    assert_eq!(start.len(), 2);
    assert_eq!((start[1].seed, start[1].opacity_percent), (1 ^ 0xABCDEF, 90));
    let end = arrowhead_passes(RoughnessLevel::Rough, 1, ArrowheadKind::Triangle, ArrowEnd::End);
    assert_eq!(end[1].seed, 1);
    assert_eq!(arrowhead_passes(RoughnessLevel::VeryRough, 1, ArrowheadKind::Dot, ArrowEnd::End).len(), 1);
}

#[test]
fn schedules_and_draws_repeat_exactly() {
    for seed in [0, 7, 42, -3, i32::MAX] {
        for level in [RoughnessLevel::Exact, RoughnessLevel::Rough, RoughnessLevel::VeryRough] {
            assert_eq!(polygon_passes(level, seed, 4), polygon_passes(level, seed, 4));
            assert_eq!(ellipse_passes(level, seed), ellipse_passes(level, seed));
            assert_eq!(rectangle_passes(level, seed, true), rectangle_passes(level, seed, true));
            assert_eq!(shaft_passes(level, seed), shaft_passes(level, seed));
            for pass in polygon_passes(level, seed, 4) {
                let mut a = LcgRng::new(pass.seed);
                let mut b = LcgRng::new(pass.seed);
                for _ in 0..50 {
                    assert_eq!(a.next_bits53(), b.next_bits53());
                }
            }
        }
    }
}

#[test]
fn polygon_without_vertices_has_no_pass() {
    for level in [RoughnessLevel::Exact, RoughnessLevel::Rough, RoughnessLevel::VeryRough] {
        assert!(polygon_passes(level, 42, 0).is_empty());
        assert_eq!(polygon_passes(level, 42, 1).len(), 1);
    }
}
