use excaliosa::shape::{rect_outline, RectCommand, RectPoint};
use excaliosa::shape::{elbow_plan, ElbowStep};
use excaliosa::spline::tangent_neighbours;
use excaliosa::clip::hachure_offsets;
use excaliosa::arrowhead::{get_arrowhead_angle, get_arrowhead_size, ArrowheadKind, CapFill, CapShape, SIZE_GAIN_PERCENT};
use excaliosa::clip::{clip_step, outcode, ClipEdge, ClipStep, BOTTOM, INSIDE, LEFT, RIGHT, TOP};
use excaliosa::shape::{corner_rule, tangent_toward, CornerRule, ElementKind, FillStyle, Toward, DEFAULT_ADAPTIVE_RADIUS, PROPORTIONAL_RADIUS_PERCENT};
use excaliosa::spline::{arrowhead_direction_plan, catmull_rom_segments, ArrowEnd, SegmentPlan};

#[test]
fn spline_below_two_points_is_empty() {
    assert!(catmull_rom_segments(0).is_empty());
    assert!(catmull_rom_segments(1).is_empty());
}

#[test]
fn spline_two_points_is_straight() {
    assert_eq!(catmull_rom_segments(2), vec![SegmentPlan::Straight { from: 0, to: 1 }]);
}

#[test]
fn spline_clamps_at_both_ends() {
    let segs = catmull_rom_segments(4);
    assert_eq!(
        segs,
        vec![
            SegmentPlan::Curve { before: 0, from: 0, to: 1, after: 2 },
            SegmentPlan::Curve { before: 0, from: 1, to: 2, after: 3 },
            SegmentPlan::Curve { before: 1, from: 2, to: 3, after: 3 },
        ]
    );
}

#[test]
fn spline_pieces_join() {
    for n in 3..40usize {
        let segs = catmull_rom_segments(n);
        assert_eq!(segs.len(), n - 1);
        for w in segs.windows(2) {
            let end = match w[0] {
                SegmentPlan::Curve { to, .. } | SegmentPlan::Straight { to, .. } => to,
            };
            let start = match w[1] {
                SegmentPlan::Curve { from, .. } | SegmentPlan::Straight { from, .. } => from,
            };
            assert_eq!(end, start);
        }
    }
}

#[test]
fn arrowhead_direction_ends() {
    assert_eq!(arrowhead_direction_plan(1, ArrowEnd::End), None);
    let start = arrowhead_direction_plan(5, ArrowEnd::Start).unwrap();
    assert_eq!((start.segment, start.tip_at_end, start.t_percent), (0, false, 30));
    assert_eq!((start.shaft_tip, start.shaft_tail), (0, 1));
    let end = arrowhead_direction_plan(5, ArrowEnd::End).unwrap();
    assert_eq!((end.segment, end.tip_at_end, end.t_percent), (3, true, 70));
    assert_eq!((end.shaft_tip, end.shaft_tail), (4, 3));
}

#[test]
fn arrowhead_tables() {
    assert_eq!(get_arrowhead_size("arrow"), 25);
    assert_eq!(get_arrowhead_size("diamond"), 12);
    assert_eq!(get_arrowhead_size("diamond_outline"), 12);
    assert_eq!(get_arrowhead_size("crowfoot_one_or_many"), 20);
    assert_eq!(get_arrowhead_size("dot"), 15);
    assert_eq!(get_arrowhead_size("whatever"), 15);
    assert_eq!(get_arrowhead_angle("bar"), 90);
    assert_eq!(get_arrowhead_angle("arrow"), 20);
    assert_eq!(get_arrowhead_angle("triangle"), 25);
    assert_eq!(ArrowheadKind::from_tag("diamond").length_fraction_percent(), 25);
    assert_eq!(ArrowheadKind::from_tag("circle").length_fraction_percent(), 50);
    assert_eq!(SIZE_GAIN_PERCENT, 30);
}

#[test]
fn triangle_end_cap() {
    // arrow [(0,0),(100,0)], end "triangle", stroke width 1: cap length
    // min(15 * 1.0, 100 * 0.5) = 15 and three points
    let kind = ArrowheadKind::from_tag("triangle");
    assert_eq!(kind, ArrowheadKind::Triangle);
    assert_eq!(kind.base_size(), 15);
    assert_eq!(kind.length_fraction_percent(), 50);
    let cap = (kind.base_size() as f64).min(100.0 * kind.length_fraction_percent() as f64 / 100.0);
    assert_eq!(cap, 15.0);
    assert_eq!(kind.shape(), CapShape::Triangle);
    assert_eq!(kind.shape().point_count(), 3);
    let plan = arrowhead_direction_plan(2, ArrowEnd::End).unwrap();
    assert_eq!(plan.shaft_tip, 1);
}

#[test]
fn arrowhead_shapes_and_fills() {
    assert_eq!(ArrowheadKind::from_tag("bogus"), ArrowheadKind::Unknown);
    assert_eq!(ArrowheadKind::Unknown.shape().point_count(), 0);
    assert_eq!(ArrowheadKind::CrowfootMany.shape(), CapShape::Crowfoot);
    assert!(CapShape::Crowfoot.flanks_turn_tip_about_base());
    assert!(!CapShape::Triangle.flanks_turn_tip_about_base());
    assert_eq!(ArrowheadKind::Diamond.shape().point_count(), 4);
    assert_eq!(ArrowheadKind::Bar.shape().point_count(), 2);
    assert_eq!(ArrowheadKind::Dot.shape().point_count(), 1);
    assert_eq!(ArrowheadKind::TriangleOutline.fill(), CapFill::BackgroundColor);
    assert_eq!(ArrowheadKind::Triangle.fill(), CapFill::StrokeColor);
    assert_eq!(ArrowheadKind::Arrow.fill(), CapFill::NoFill);
    assert!(!ArrowheadKind::Dot.has_rough_copy());
    assert!(ArrowheadKind::Circle.has_rough_copy());
}

#[test]
fn region_codes() {
    assert_eq!(outcode(false, false, false, false), INSIDE);
    assert_eq!(outcode(true, false, true, false), LEFT + TOP);
    assert_eq!(outcode(false, true, false, true), RIGHT + BOTTOM);
    assert_eq!(outcode(true, true, true, true), LEFT + TOP);
}

#[test]
fn clip_steps() {
    assert_eq!(clip_step(INSIDE, INSIDE), ClipStep::Accept);
    // both beyond the left side: dropped
    assert_eq!(clip_step(LEFT, LEFT + TOP), ClipStep::Reject);
    assert_eq!(clip_step(TOP + RIGHT, TOP), ClipStep::Reject);
    // one endpoint outside: it is moved first
    assert_eq!(clip_step(INSIDE, RIGHT), ClipStep::MoveSecond(ClipEdge::Right));
    assert_eq!(clip_step(LEFT + BOTTOM, INSIDE), ClipStep::MoveFirst(ClipEdge::Bottom));
    assert_eq!(clip_step(LEFT, RIGHT), ClipStep::MoveFirst(ClipEdge::Left));
    assert_eq!(clip_step(TOP, BOTTOM), ClipStep::MoveFirst(ClipEdge::Top));
}

#[test]
fn element_and_fill_tags() {
    assert_eq!(ElementKind::from_tag("rectangle"), ElementKind::Rectangle);
    assert_eq!(ElementKind::from_tag("arrow"), ElementKind::Arrow);
    assert_eq!(ElementKind::from_tag("freedraw"), ElementKind::Other);
    assert_eq!(FillStyle::from_tag(""), FillStyle::Solid);
    assert_eq!(FillStyle::from_tag("solid"), FillStyle::Solid);
    assert_eq!(FillStyle::from_tag("hachure"), FillStyle::Hachure);
    assert_eq!(FillStyle::from_tag("cross-hatch"), FillStyle::OtherPattern);
}

#[test]
fn corner_rules() {
    assert_eq!(corner_rule(None), CornerRule::Square);
    assert_eq!(corner_rule(Some(1)), CornerRule::Proportional);
    assert_eq!(corner_rule(Some(2)), CornerRule::Proportional);
    assert_eq!(corner_rule(Some(3)), CornerRule::Adaptive);
    assert_eq!(corner_rule(Some(9)), CornerRule::Square);
    assert_eq!(PROPORTIONAL_RADIUS_PERCENT, 25);
    assert_eq!(DEFAULT_ADAPTIVE_RADIUS, 32);
}

#[test]
fn proportional_square_corner() {
    // a 100 x 100 rectangle with proportional roundness has radius 25
    let rule = corner_rule(Some(2));
    assert_eq!(rule, CornerRule::Proportional);
    assert_eq!(100 * PROPORTIONAL_RADIUS_PERCENT / 100, 25);
}

#[test]
fn elbow_tangents() {
    assert_eq!(tangent_toward(true, true), Toward::MinusX);
    assert_eq!(tangent_toward(true, false), Toward::PlusX);
    assert_eq!(tangent_toward(false, true), Toward::MinusY);
    assert_eq!(tangent_toward(false, false), Toward::PlusY);
}

#[test]
fn polyline_tangent_neighbours() {
    assert_eq!(tangent_neighbours(0, 4), (0, 1));
    assert_eq!(tangent_neighbours(3, 4), (2, 3));
    assert_eq!(tangent_neighbours(1, 4), (0, 2));
    assert_eq!(tangent_neighbours(1, 2), (0, 1));
}

#[test]
fn hachure_line_offsets() {
    assert_eq!(hachure_offsets(2, true), vec![-8, -4, 0, 4, 8]);
    assert_eq!(hachure_offsets(0, true), vec![0]);
    assert!(hachure_offsets(5, false).is_empty());
}

#[test]
fn degenerate_shaft_has_no_cap() {
    for tag in ["arrow", "bar", "dot", "triangle", "diamond", "crowfoot_many", "nope"] {
        let kind = ArrowheadKind::from_tag(tag);
        assert_eq!(kind.cap_shape(true), CapShape::Empty);
        assert_eq!(kind.cap_shape(true).point_count(), 0);
    }
    assert_eq!(ArrowheadKind::Triangle.cap_shape(false), CapShape::Triangle);
}

#[test]
fn elbow_paths() {
    assert_eq!(elbow_plan(0), None);
    assert_eq!(elbow_plan(1), None);
    assert_eq!(elbow_plan(2), Some(vec![ElbowStep::MoveTo(0), ElbowStep::LineTo(1)]));
    assert_eq!(
        elbow_plan(4),
        Some(vec![ElbowStep::MoveTo(0), ElbowStep::Corner(1), ElbowStep::Corner(2), ElbowStep::LineTo(3)])
    );
}

#[test]
fn proportional_square_outline_starts_at_m_25_0() {
    // rectangle x=0, y=0, w=100, h=100 with proportional roundness
    let (x, y, w, h) = (0.0f64, 0.0f64, 100.0f64, 100.0f64);
    assert_eq!(corner_rule(Some(2)), CornerRule::Proportional);
    let r = w.min(h) * PROPORTIONAL_RADIUS_PERCENT as f64 / 100.0;
    assert_eq!(r, 25.0);
    let at = |p: RectPoint| {
        let bx = if p.far_x { x + w } else { x };
        let by = if p.far_y { y + h } else { y };
        format!("{} {}", bx + p.dx as f64 * r, by + p.dy as f64 * r)
    };
    let cmds = rect_outline(true);
    let d: Vec<String> = cmds
        .iter()
        .map(|c| match *c {
            RectCommand::MoveTo(p) => format!("M {}", at(p)),
            RectCommand::LineTo(p) => format!("L {}", at(p)),
            RectCommand::QuadTo(c, p) => format!("Q {}, {}", at(c), at(p)),
            RectCommand::Close => "Z".to_string(),
        })
        .collect();
    let d = d.join(" ");
    assert!(d.starts_with("M 25 0"));
    assert_eq!(d.matches('Q').count(), 4);
    assert!(d.ends_with(", 25 0"));
    assert_eq!(
        d,
        "M 25 0 L 75 0 Q 100 0, 100 25 L 100 75 Q 100 100, 75 100 L 25 100 Q 0 100, 0 75 L 0 25 Q 0 0, 25 0"
    );
}

#[test]
fn sharp_outline_closes() {
    let cmds = rect_outline(false);
    assert_eq!(cmds.len(), 5);
    assert_eq!(cmds[4], RectCommand::Close);
    assert_eq!(cmds[0], RectCommand::MoveTo(RectPoint { far_x: false, dx: 0, far_y: false, dy: 0 }));
}
