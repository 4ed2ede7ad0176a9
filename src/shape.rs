//! Element kinds, fill styles, corner rounding rules and elbow arrow paths.
use vstd::prelude::*;

use crate::text::same_text;

verus! {

/// A reference from one element to another that is bound to it.
#[derive(Clone, Debug)]
pub struct BoundElement {
    pub id: String,
    pub element_type: String,
}

/// The kinds of element a drawing holds.
#[derive(Clone, Copy, Debug, PartialEq, Eq, Structural)]
pub enum ElementKind {
    Rectangle,
    Diamond,
    Ellipse,
    Line,
    Arrow,
    Text,
    /// Any other tag: nothing is drawn.
    Other,
}

pub open spec fn element_kind_of(tag: Seq<char>) -> ElementKind {
    if tag == "rectangle"@ {
        ElementKind::Rectangle
    } else if tag == "diamond"@ {
        ElementKind::Diamond
    } else if tag == "ellipse"@ {
        ElementKind::Ellipse
    } else if tag == "line"@ {
        ElementKind::Line
    } else if tag == "arrow"@ {
        ElementKind::Arrow
    } else if tag == "text"@ {
        ElementKind::Text
    } else {
        ElementKind::Other
    }
}

impl ElementKind {
    pub fn from_tag(tag: &str) -> (r: ElementKind)
        ensures
            r == element_kind_of(tag@),
    {
        if same_text(tag, "rectangle") {
            ElementKind::Rectangle
        } else if same_text(tag, "diamond") {
            ElementKind::Diamond
        } else if same_text(tag, "ellipse") {
            ElementKind::Ellipse
        } else if same_text(tag, "line") {
            ElementKind::Line
        } else if same_text(tag, "arrow") {
            ElementKind::Arrow
        } else if same_text(tag, "text") {
            ElementKind::Text
        } else {
            ElementKind::Other
        }
    }
}

/// How the inside of a filled shape is painted.
#[derive(Clone, Copy, Debug, PartialEq, Eq, Structural)]
pub enum FillStyle {
    /// One solid fill (also when no style is given).
    Solid,
    /// Parallel diagonal lines.
    Hachure,
    /// A line pattern that is not drawn (cross-hatch, zigzag, ...).
    OtherPattern,
}

pub open spec fn fill_style_of(tag: Seq<char>) -> FillStyle {
    if tag.len() == 0 || tag == "solid"@ {
        FillStyle::Solid
    } else if tag == "hachure"@ {
        FillStyle::Hachure
    } else {
        FillStyle::OtherPattern
    }
}

impl FillStyle {
    pub fn from_tag(tag: &str) -> (r: FillStyle)
        ensures
            r == fill_style_of(tag@),
    {
        if tag.is_empty() || same_text(tag, "solid") {
            FillStyle::Solid
        } else if same_text(tag, "hachure") {
            FillStyle::Hachure
        } else {
            FillStyle::OtherPattern
        }
    }
}

/// Roundness type code of legacy rounded corners.
pub const ROUNDNESS_LEGACY: i32 = 1;

/// Roundness type code of corners proportional to the shape.
pub const ROUNDNESS_PROPORTIONAL_RADIUS: i32 = 2;

/// Roundness type code of a fixed corner radius on large shapes.
pub const ROUNDNESS_ADAPTIVE_RADIUS: i32 = 3;

/// Proportional corner radius, in percent of the shape's smaller side.
pub const PROPORTIONAL_RADIUS_PERCENT: u32 = 25;

/// Fixed corner radius of adaptive roundness when the element gives none.
pub const DEFAULT_ADAPTIVE_RADIUS: u32 = 32;

/// How the corner radius of a rectangle follows from its roundness.
#[derive(Clone, Copy, Debug, PartialEq, Eq, Structural)]
pub enum CornerRule {
    /// Sharp corners: radius 0.
    Square,
    /// A quarter of the smaller side.
    Proportional,
    /// The fixed radius, unless the smaller side is below four times it, in
    /// which case a quarter of the smaller side.
    Adaptive,
}

pub open spec fn corner_rule_of(roundness_type: Option<i32>) -> CornerRule {
    match roundness_type {
        Some(t) => if t == ROUNDNESS_LEGACY || t == ROUNDNESS_PROPORTIONAL_RADIUS {
            CornerRule::Proportional
        } else if t == ROUNDNESS_ADAPTIVE_RADIUS {
            CornerRule::Adaptive
        } else {
            CornerRule::Square
        },
        None => CornerRule::Square,
    }
}

/// The corner rule for an element's roundness type code (none when the
/// element has no roundness).
pub fn corner_rule(roundness_type: Option<i32>) -> (r: CornerRule)
    ensures
        r == corner_rule_of(roundness_type),
{
    match roundness_type {
        Some(t) => if t == ROUNDNESS_LEGACY || t == ROUNDNESS_PROPORTIONAL_RADIUS {
            CornerRule::Proportional
        } else if t == ROUNDNESS_ADAPTIVE_RADIUS {
            CornerRule::Adaptive
        } else {
            CornerRule::Square
        },
        None => CornerRule::Square,
    }
}

/// Direction, from an elbow vertex, of one tangent point of its rounded
/// corner.
#[derive(Clone, Copy, Debug, PartialEq, Eq, Structural)]
pub enum Toward {
    MinusX,
    PlusX,
    MinusY,
    PlusY,
}

/// Direction of the tangent point on the segment from an elbow vertex to a
/// neighbouring point: along x when that segment is mostly horizontal
/// (`|dx| >= |dy|`), else along y; toward smaller coordinates exactly when
/// the neighbour's coordinate on that axis is smaller than the vertex's.
pub fn tangent_toward(horizontal: bool, neighbour_smaller: bool) -> (r: Toward)
    ensures
        r == (if horizontal {
            if neighbour_smaller {
                Toward::MinusX
            } else {
                Toward::PlusX
            }
        } else if neighbour_smaller {
            Toward::MinusY
        } else {
            Toward::PlusY
        }),
{
    if horizontal {
        if neighbour_smaller {
            Toward::MinusX
        } else {
            Toward::PlusX
        }
    } else if neighbour_smaller {
        Toward::MinusY
    } else {
        Toward::PlusY
    }
}

/// One step of an elbow arrow's path through its points.
#[derive(Clone, Copy, Debug, PartialEq, Eq, Structural)]
pub enum ElbowStep {
    /// Start at the point with this index.
    MoveTo(usize),
    /// A straight line to the point with this index.
    LineTo(usize),
    /// Round the corner at the vertex with this index: a line to the tangent
    /// point on the incoming segment, then a curve through the corner to the
    /// tangent point on the outgoing segment.
    Corner(usize),
}

pub open spec fn elbow_plan_of(n: nat) -> Option<Seq<ElbowStep>> {
    if n < 2 {
        None
    } else {
        Some(
            seq![ElbowStep::MoveTo(0)] + Seq::new((n - 2) as nat, |i: int| ElbowStep::Corner((i + 1) as usize))
                + seq![ElbowStep::LineTo((n - 1) as usize)],
        )
    }
}

/// The steps of an elbow arrow through `n` points: none below two points;
/// from the first point, a rounded corner at every inner vertex, then a
/// line to the last point. Two points give a straight line.
pub fn elbow_plan(n: usize) -> (r: Option<Vec<ElbowStep>>)
    ensures
        match (r, elbow_plan_of(n as nat)) {
            (Some(v), Some(p)) => v@ == p,
            (None, None) => true,
            _ => false,
        },
{
    if n < 2 {
        return None;
    }
    let mut v: Vec<ElbowStep> = Vec::new();
    v.push(ElbowStep::MoveTo(0));
    let mut i: usize = 1;
    while i < n - 1
        invariant
            2 <= n,
            1 <= i <= n - 1,
            v@ =~= seq![ElbowStep::MoveTo(0)] + Seq::new(
                (i - 1) as nat,
                |k: int| ElbowStep::Corner((k + 1) as usize),
            ),
        decreases n - 1 - i,
    {
        v.push(ElbowStep::Corner(i));
        i += 1;
    }
    v.push(ElbowStep::LineTo(n - 1));
    proof {
        assert(v@ =~= elbow_plan_of(n as nat)->0);
    }
    Some(v)
}

/// A point of a rectangle's outline, relative to the rectangle: its x is
/// the left side (or the right side when `far_x`) plus `dx` corner radii,
/// and likewise for y with the top and bottom sides.
#[derive(Clone, Copy, Debug, PartialEq, Eq, Structural)]
pub struct RectPoint {
    pub far_x: bool,
    pub dx: i8,
    pub far_y: bool,
    pub dy: i8,
}

/// One command of a rectangle outline path.
#[derive(Clone, Copy, Debug, PartialEq, Eq, Structural)]
pub enum RectCommand {
    MoveTo(RectPoint),
    LineTo(RectPoint),
    /// A quadratic curve: control point, then end point.
    QuadTo(RectPoint, RectPoint),
    /// Close the path back to its start.
    Close,
}

pub open spec fn rp(far_x: bool, dx: i8, far_y: bool, dy: i8) -> RectPoint {
    RectPoint { far_x, dx, far_y, dy }
}

/// The outline of a rectangle, clockwise from the top edge: four lines and
/// a close for sharp corners; for rounded corners four edges, each followed
/// by a quarter-round corner drawn as a quadratic curve whose control point
/// is the sharp corner, ending where the path began.
pub open spec fn rect_outline_of(rounded: bool) -> Seq<RectCommand> {
    if rounded {
        seq![
            RectCommand::MoveTo(rp(false, 1, false, 0)),
            RectCommand::LineTo(rp(true, -1i8, false, 0)),
            RectCommand::QuadTo(rp(true, 0, false, 0), rp(true, 0, false, 1)),
            RectCommand::LineTo(rp(true, 0, true, -1i8)),
            RectCommand::QuadTo(rp(true, 0, true, 0), rp(true, -1i8, true, 0)),
            RectCommand::LineTo(rp(false, 1, true, 0)),
            RectCommand::QuadTo(rp(false, 0, true, 0), rp(false, 0, true, -1i8)),
            RectCommand::LineTo(rp(false, 0, false, 1)),
            RectCommand::QuadTo(rp(false, 0, false, 0), rp(false, 1, false, 0)),
        ]
    } else {
        seq![
            RectCommand::MoveTo(rp(false, 0, false, 0)),
            RectCommand::LineTo(rp(true, 0, false, 0)),
            RectCommand::LineTo(rp(true, 0, true, 0)),
            RectCommand::LineTo(rp(false, 0, true, 0)),
            RectCommand::Close,
        ]
    }
}

fn point(far_x: bool, dx: i8, far_y: bool, dy: i8) -> (r: RectPoint)
    ensures
        r == rp(far_x, dx, far_y, dy),
{
    RectPoint { far_x, dx, far_y, dy }
}

/// The commands of a rectangle outline with sharp or rounded corners.
pub fn rect_outline(rounded: bool) -> (r: Vec<RectCommand>)
    ensures
        r@ == rect_outline_of(rounded),
{
    let mut v: Vec<RectCommand> = Vec::new();
    if rounded {
        v.push(RectCommand::MoveTo(point(false, 1, false, 0)));
        v.push(RectCommand::LineTo(point(true, -1, false, 0)));
        v.push(RectCommand::QuadTo(point(true, 0, false, 0), point(true, 0, false, 1)));
        v.push(RectCommand::LineTo(point(true, 0, true, -1)));
        v.push(RectCommand::QuadTo(point(true, 0, true, 0), point(true, -1, true, 0)));
        v.push(RectCommand::LineTo(point(false, 1, true, 0)));
        v.push(RectCommand::QuadTo(point(false, 0, true, 0), point(false, 0, true, -1)));
        v.push(RectCommand::LineTo(point(false, 0, false, 1)));
        v.push(RectCommand::QuadTo(point(false, 0, false, 0), point(false, 1, false, 0)));
    } else {
        v.push(RectCommand::MoveTo(point(false, 0, false, 0)));
        v.push(RectCommand::LineTo(point(true, 0, false, 0)));
        v.push(RectCommand::LineTo(point(true, 0, true, 0)));
        v.push(RectCommand::LineTo(point(false, 0, true, 0)));
        v.push(RectCommand::Close);
    }
    proof {
        assert(v@ =~= rect_outline_of(rounded));
    }
    v
}

/// Whether a command is a corner curve.
pub open spec fn is_quad(c: RectCommand) -> bool {
    c is QuadTo
}

/// A rounded outline starts one radius right of the top-left corner, holds
/// exactly four quarter-round corners, each controlled by a sharp corner of
/// the rectangle, and ends where it started; a sharp outline starts at the
/// top-left corner and is closed explicitly.
pub proof fn lemma_rect_outline_shape()
    ensures
        rect_outline_of(true)[0] == RectCommand::MoveTo(rp(false, 1, false, 0)),
        rect_outline_of(true).filter(|c: RectCommand| is_quad(c)).len() == 4,
        rect_outline_of(true).last() == RectCommand::QuadTo(rp(false, 0, false, 0), rp(false, 1, false, 0)),
        forall|i: int|
            0 <= i < rect_outline_of(true).len() && #[trigger] is_quad(rect_outline_of(true)[i])
                ==> {
                let ctrl = rect_outline_of(true)[i]->QuadTo_0;
                ctrl.dx == 0 && ctrl.dy == 0
            },
        rect_outline_of(false)[0] == RectCommand::MoveTo(rp(false, 0, false, 0)),
        rect_outline_of(false).last() == RectCommand::Close,
{
    let s = rect_outline_of(true);
    reveal_with_fuel(Seq::filter, 10);
    assert(s.filter(|c: RectCommand| is_quad(c)) =~= seq![s[2], s[4], s[6], s[8]]);
}

} // verus!
