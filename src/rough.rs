//! The pass schedule of the hand-drawn look.
//!
//! A rough shape is drawn as up to three overlapping passes, each jittered by
//! its own freshly seeded generator and drawn at its own opacity. This module
//! decides how many passes a shape gets and with which seed, jitter, and
//! opacity; the jitter itself is applied by the caller.
use vstd::prelude::*;

use crate::arrowhead::ArrowheadKind;
use crate::spline::ArrowEnd;

verus! {

/// How rough a drawing is, read from its roughness value `r`.
#[derive(Clone, Copy, Debug, PartialEq, Eq, Structural)]
pub enum RoughnessLevel {
    /// `r <= 0`: exact geometry, no jitter.
    Exact,
    /// `0 < r <= 1`: a primary and a secondary pass.
    Rough,
    /// `r > 1`: a tertiary pass as well, where the shape has one.
    VeryRough,
}

/// One pass of a rough drawing.
#[derive(Clone, Copy, Debug, PartialEq, Eq, Structural)]
pub struct Pass {
    /// Seed of the generator that jitters this pass.
    pub seed: i32,
    /// Jitter amplitude, in percent of the shape's base amplitude; 0 for a
    /// pass drawn exactly.
    pub jitter_percent: u32,
    /// Scale of the roughness value used by this pass, in percent.
    pub roughness_percent: u32,
    /// Opacity multiplier, in percent.
    pub opacity_percent: u32,
    /// For rectangle edges: pin edge endpoints to the exact corners.
    pub preserve_vertices: bool,
    /// For rectangle edges: the overlay pass, with halved endpoint and
    /// control-point jitter.
    pub overlay: bool,
}

pub open spec fn exact_pass(seed: i32) -> Pass {
    Pass {
        seed,
        jitter_percent: 0,
        roughness_percent: 100,
        opacity_percent: 100,
        preserve_vertices: true,
        overlay: false,
    }
}

pub open spec fn jitter_pass(seed: i32, jitter: u32, roughness: u32, opacity: u32) -> Pass {
    Pass {
        seed,
        jitter_percent: jitter,
        roughness_percent: roughness,
        opacity_percent: opacity,
        preserve_vertices: false,
        overlay: false,
    }
}

/// Passes of a closed polygon (diamonds) with `n` vertices.
pub open spec fn polygon_plan(level: RoughnessLevel, seed: i32, n: nat) -> Seq<Pass> {
    if n == 0 {
        seq![]
    } else if level == RoughnessLevel::Exact || n < 3 {
        seq![exact_pass(seed)]
    } else {
        let two = seq![
            jitter_pass(seed, 100, 100, 100),
            jitter_pass(seed.wrapping_add(1), 50, 100, 85),
        ];
        if level == RoughnessLevel::VeryRough {
            two.push(jitter_pass(seed.wrapping_add(2), 30, 100, 70))
        } else {
            two
        }
    }
}

/// Passes of an ellipse; the jitter is the per-pass offset factor.
pub open spec fn ellipse_plan(level: RoughnessLevel, seed: i32) -> Seq<Pass> {
    if level == RoughnessLevel::Exact {
        seq![exact_pass(seed)]
    } else {
        let two = seq![
            jitter_pass(seed, 100, 100, 100),
            jitter_pass(seed.wrapping_add(1), 150, 100, 85),
        ];
        if level == RoughnessLevel::VeryRough {
            two.push(jitter_pass(seed.wrapping_add(2), 120, 70, 70))
        } else {
            two
        }
    }
}

/// Passes of a rectangle outline: an underlay and an overlay, never a third.
pub open spec fn rectangle_plan(level: RoughnessLevel, seed: i32, preserve: bool) -> Seq<Pass> {
    if level == RoughnessLevel::Exact {
        seq![exact_pass(seed)]
    } else {
        seq![
            Pass {
                seed,
                jitter_percent: 100,
                roughness_percent: 100,
                opacity_percent: 100,
                preserve_vertices: preserve,
                overlay: false,
            },
            Pass {
                seed: seed.wrapping_add(1),
                jitter_percent: 100,
                roughness_percent: 100,
                opacity_percent: 85,
                preserve_vertices: false,
                overlay: true,
            },
        ]
    }
}

/// Seed offset of the tertiary pass of a line shaft.
pub const SHAFT_TERTIARY_SEED_OFFSET: i32 = 0x55555555;

/// Passes of a line or arrow shaft: the exact shaft, then jittered copies.
pub open spec fn shaft_plan(level: RoughnessLevel, seed: i32) -> Seq<Pass> {
    if level == RoughnessLevel::Exact {
        seq![exact_pass(seed)]
    } else {
        let two = seq![exact_pass(seed), jitter_pass(seed, 100, 100, 85)];
        if level == RoughnessLevel::VeryRough {
            two.push(jitter_pass(seed.wrapping_add(SHAFT_TERTIARY_SEED_OFFSET), 60, 100, 70))
        } else {
            two
        }
    }
}

/// Constant mixed into the seed of the jittered copy of a start arrowhead.
pub const START_CAP_SEED_MIX: i32 = 0xABCDEF;

/// Passes of an arrowhead: the exact cap, then, when the drawing is rough
/// and the kind has one, a jittered copy at 90% opacity.
pub open spec fn arrowhead_plan(
    level: RoughnessLevel,
    seed: i32,
    kind: ArrowheadKind,
    end: ArrowEnd,
) -> Seq<Pass> {
    if level == RoughnessLevel::Exact || kind == ArrowheadKind::Dot {
        seq![exact_pass(seed)]
    } else {
        let copy_seed = match end {
            ArrowEnd::End => seed,
            ArrowEnd::Start => seed ^ START_CAP_SEED_MIX,
        };
        seq![exact_pass(seed), jitter_pass(copy_seed, 100, 100, 90)]
    }
}

fn exact(seed: i32) -> (p: Pass)
    ensures
        p == exact_pass(seed),
{
    Pass {
        seed,
        jitter_percent: 0,
        roughness_percent: 100,
        opacity_percent: 100,
        preserve_vertices: true,
        overlay: false,
    }
}

fn jittered(seed: i32, jitter: u32, roughness: u32, opacity: u32) -> (p: Pass)
    ensures
        p == jitter_pass(seed, jitter, roughness, opacity),
{
    Pass {
        seed,
        jitter_percent: jitter,
        roughness_percent: roughness,
        opacity_percent: opacity,
        preserve_vertices: false,
        overlay: false,
    }
}

/// Passes of a closed polygon with `vertex_count` vertices: none for a
/// polygon without vertices (nothing is drawn); exact when the drawing is
/// exact or the polygon has fewer than three vertices; else a
/// primary pass, a secondary at half jitter and 85% opacity, and for a very
/// rough drawing a tertiary at 30% jitter and 70% opacity, seeded with the
/// element seed plus 0, 1 and 2.
pub fn polygon_passes(level: RoughnessLevel, seed: i32, vertex_count: usize) -> (r: Vec<Pass>)
    ensures
        r@ == polygon_plan(level, seed, vertex_count as nat),
{
    let mut v: Vec<Pass> = Vec::new();
    if vertex_count == 0 {
    } else if matches!(level, RoughnessLevel::Exact) || vertex_count < 3 {
        v.push(exact(seed));
    } else {
        v.push(jittered(seed, 100, 100, 100));
        v.push(jittered(seed.wrapping_add(1), 50, 100, 85));
        if matches!(level, RoughnessLevel::VeryRough) {
            v.push(jittered(seed.wrapping_add(2), 30, 100, 70));
        }
    }
    proof {
        assert(v@ =~= polygon_plan(level, seed, vertex_count as nat));
    }
    v
}

/// Passes of an ellipse: exact, or offset factors 1.0 and 1.5 at full
/// roughness, and for a very rough drawing 1.2 at 70% roughness.
pub fn ellipse_passes(level: RoughnessLevel, seed: i32) -> (r: Vec<Pass>)
    ensures
        r@ == ellipse_plan(level, seed),
{
    let mut v: Vec<Pass> = Vec::new();
    if matches!(level, RoughnessLevel::Exact) {
        v.push(exact(seed));
    } else {
        v.push(jittered(seed, 100, 100, 100));
        v.push(jittered(seed.wrapping_add(1), 150, 100, 85));
        if matches!(level, RoughnessLevel::VeryRough) {
            v.push(jittered(seed.wrapping_add(2), 120, 70, 70));
        }
    }
    proof {
        assert(v@ =~= ellipse_plan(level, seed));
    }
    v
}

/// Passes of a rectangle outline: exact, or an underlay that pins the
/// corners when `preserve_vertices` (low roughness) and an overlay at 85%
/// opacity that never does.
pub fn rectangle_passes(level: RoughnessLevel, seed: i32, preserve_vertices: bool) -> (r: Vec<Pass>)
    ensures
        r@ == rectangle_plan(level, seed, preserve_vertices),
{
    let mut v: Vec<Pass> = Vec::new();
    if matches!(level, RoughnessLevel::Exact) {
        v.push(exact(seed));
    } else {
        v.push(
            Pass {
                seed,
                jitter_percent: 100,
                roughness_percent: 100,
                opacity_percent: 100,
                preserve_vertices,
                overlay: false,
            },
        );
        v.push(
            Pass {
                seed: seed.wrapping_add(1),
                jitter_percent: 100,
                roughness_percent: 100,
                opacity_percent: 85,
                preserve_vertices: false,
                overlay: true,
            },
        );
    }
    proof {
        assert(v@ =~= rectangle_plan(level, seed, preserve_vertices));
    }
    v
}

/// Passes of a line shaft: the exact shaft, a jittered copy at 85% opacity
/// when rough, and one more at 60% jitter and 70% opacity when very rough.
pub fn shaft_passes(level: RoughnessLevel, seed: i32) -> (r: Vec<Pass>)
    ensures
        r@ == shaft_plan(level, seed),
{
    let mut v: Vec<Pass> = Vec::new();
    v.push(exact(seed));
    if !matches!(level, RoughnessLevel::Exact) {
        v.push(jittered(seed, 100, 100, 85));
        if matches!(level, RoughnessLevel::VeryRough) {
            v.push(jittered(seed.wrapping_add(SHAFT_TERTIARY_SEED_OFFSET), 60, 100, 70));
        }
    }
    proof {
        assert(v@ =~= shaft_plan(level, seed));
    }
    v
}

/// Passes of an arrowhead at one end of a line.
pub fn arrowhead_passes(level: RoughnessLevel, seed: i32, kind: ArrowheadKind, end: ArrowEnd) -> (r:
    Vec<Pass>)
    ensures
        r@ == arrowhead_plan(level, seed, kind, end),
{
    let mut v: Vec<Pass> = Vec::new();
    v.push(exact(seed));
    if !matches!(level, RoughnessLevel::Exact) && kind.has_rough_copy() {
        let copy_seed = match end {
            ArrowEnd::End => seed,
            ArrowEnd::Start => seed ^ START_CAP_SEED_MIX,
        };
        v.push(jittered(copy_seed, 100, 100, 90));
    }
    proof {
        assert(v@ =~= arrowhead_plan(level, seed, kind, end));
    }
    v
}

/// A drawing with roughness 0 is one exact pass, whatever the shape:
/// polygons (with at least one vertex), ellipses, rectangles, shafts and
/// arrowheads alike.
pub proof fn lemma_exact_is_single_pass(seed: i32, n: nat, preserve: bool, kind: ArrowheadKind, end: ArrowEnd)
    ensures
        n > 0 ==> polygon_plan(RoughnessLevel::Exact, seed, n) == seq![exact_pass(seed)],
        ellipse_plan(RoughnessLevel::Exact, seed) == seq![exact_pass(seed)],
        rectangle_plan(RoughnessLevel::Exact, seed, preserve) == seq![exact_pass(seed)],
        shaft_plan(RoughnessLevel::Exact, seed) == seq![exact_pass(seed)],
        arrowhead_plan(RoughnessLevel::Exact, seed, kind, end) == seq![exact_pass(seed)],
        exact_pass(seed).jitter_percent == 0,
{
}

/// Every schedule has at most three passes, the first drawn at full opacity,
/// and a third pass only for a very rough drawing; a polygon without
/// vertices has no pass at all, every other shape at least one.
pub proof fn lemma_pass_counts(level: RoughnessLevel, seed: i32, n: nat, preserve: bool)
    ensures
        n == 0 ==> polygon_plan(level, seed, n).len() == 0,
        n > 0 ==> 1 <= polygon_plan(level, seed, n).len() <= 3,
        1 <= ellipse_plan(level, seed).len() <= 3,
        1 <= rectangle_plan(level, seed, preserve).len() <= 2,
        1 <= shaft_plan(level, seed).len() <= 3,
        n > 0 ==> polygon_plan(level, seed, n)[0].opacity_percent == 100,
        ellipse_plan(level, seed)[0].opacity_percent == 100,
        rectangle_plan(level, seed, preserve)[0].opacity_percent == 100,
        shaft_plan(level, seed)[0].opacity_percent == 100,
        polygon_plan(level, seed, n).len() == 3 ==> level == RoughnessLevel::VeryRough,
        ellipse_plan(level, seed).len() == 3 ==> level == RoughnessLevel::VeryRough,
        shaft_plan(level, seed).len() == 3 ==> level == RoughnessLevel::VeryRough,
{
}

} // verus!
