//! Arrowhead kinds and the per-kind tables that shape their caps.
use vstd::prelude::*;

use crate::text::same_text;

verus! {

/// The arrowhead styles a line end can carry.
#[derive(Clone, Copy, Debug, PartialEq, Eq, Structural)]
pub enum ArrowheadKind {
    Arrow,
    Bar,
    Dot,
    Circle,
    CircleOutline,
    Triangle,
    TriangleOutline,
    Diamond,
    DiamondOutline,
    CrowfootMany,
    CrowfootOne,
    CrowfootOneOrMany,
    /// A tag that names none of the above: nothing is drawn.
    Unknown,
}

/// The geometry a cap is made of.
#[derive(Clone, Copy, Debug, PartialEq, Eq, Structural)]
pub enum CapShape {
    /// Nothing is drawn.
    Empty,
    /// A circle: centre at the tip, and a diameter.
    Circle,
    /// A bar across the shaft: its two endpoints.
    Bar,
    /// Two strokes meeting at the tip: tip and two flank points.
    OpenArrow,
    /// A closed triangle: tip and two flank points.
    Triangle,
    /// A closed diamond: tip, flank, rear point, flank.
    Diamond,
    /// Crow's foot: base point and two flank points.
    Crowfoot,
}

/// What the inside of a cap is painted with.
#[derive(Clone, Copy, Debug, PartialEq, Eq, Structural)]
pub enum CapFill {
    /// Not filled: the cap is made of strokes only.
    NoFill,
    /// Filled with the stroke colour.
    StrokeColor,
    /// Filled with the background colour (the outline styles).
    BackgroundColor,
}

pub open spec fn arrowhead_kind_of(tag: Seq<char>) -> ArrowheadKind {
    if tag == "arrow"@ {
        ArrowheadKind::Arrow
    } else if tag == "bar"@ {
        ArrowheadKind::Bar
    } else if tag == "dot"@ {
        ArrowheadKind::Dot
    } else if tag == "circle"@ {
        ArrowheadKind::Circle
    } else if tag == "circle_outline"@ {
        ArrowheadKind::CircleOutline
    } else if tag == "triangle"@ {
        ArrowheadKind::Triangle
    } else if tag == "triangle_outline"@ {
        ArrowheadKind::TriangleOutline
    } else if tag == "diamond"@ {
        ArrowheadKind::Diamond
    } else if tag == "diamond_outline"@ {
        ArrowheadKind::DiamondOutline
    } else if tag == "crowfoot_many"@ {
        ArrowheadKind::CrowfootMany
    } else if tag == "crowfoot_one"@ {
        ArrowheadKind::CrowfootOne
    } else if tag == "crowfoot_one_or_many"@ {
        ArrowheadKind::CrowfootOneOrMany
    } else {
        ArrowheadKind::Unknown
    }
}

impl ArrowheadKind {
    pub open spec fn is_diamond(self) -> bool {
        self == ArrowheadKind::Diamond || self == ArrowheadKind::DiamondOutline
    }

    pub open spec fn is_crowfoot(self) -> bool {
        ||| self == ArrowheadKind::CrowfootMany
        ||| self == ArrowheadKind::CrowfootOne
        ||| self == ArrowheadKind::CrowfootOneOrMany
    }

    pub open spec fn spec_base_size(self) -> u32 {
        if self == ArrowheadKind::Arrow {
            25
        } else if self.is_diamond() {
            12
        } else if self.is_crowfoot() {
            20
        } else {
            15
        }
    }

    pub open spec fn spec_angle_degrees(self) -> u32 {
        if self == ArrowheadKind::Bar {
            90
        } else if self == ArrowheadKind::Arrow {
            20
        } else {
            25
        }
    }

    pub open spec fn spec_shape(self) -> CapShape {
        match self {
            ArrowheadKind::Arrow => CapShape::OpenArrow,
            ArrowheadKind::Bar => CapShape::Bar,
            ArrowheadKind::Dot | ArrowheadKind::Circle | ArrowheadKind::CircleOutline => CapShape::Circle,
            ArrowheadKind::Triangle | ArrowheadKind::TriangleOutline => CapShape::Triangle,
            ArrowheadKind::Diamond | ArrowheadKind::DiamondOutline => CapShape::Diamond,
            ArrowheadKind::CrowfootMany | ArrowheadKind::CrowfootOne
            | ArrowheadKind::CrowfootOneOrMany => CapShape::Crowfoot,
            ArrowheadKind::Unknown => CapShape::Empty,
        }
    }

    pub open spec fn spec_cap_shape(self, degenerate_shaft: bool) -> CapShape {
        if degenerate_shaft {
            CapShape::Empty
        } else {
            self.spec_shape()
        }
    }

    /// Reads an arrowhead tag; an unrecognised tag gives `Unknown`.
    pub fn from_tag(tag: &str) -> (r: ArrowheadKind)
        ensures
            r == arrowhead_kind_of(tag@),
    {
        if same_text(tag, "arrow") {
            ArrowheadKind::Arrow
        } else if same_text(tag, "bar") {
            ArrowheadKind::Bar
        } else if same_text(tag, "dot") {
            ArrowheadKind::Dot
        } else if same_text(tag, "circle") {
            ArrowheadKind::Circle
        } else if same_text(tag, "circle_outline") {
            ArrowheadKind::CircleOutline
        } else if same_text(tag, "triangle") {
            ArrowheadKind::Triangle
        } else if same_text(tag, "triangle_outline") {
            ArrowheadKind::TriangleOutline
        } else if same_text(tag, "diamond") {
            ArrowheadKind::Diamond
        } else if same_text(tag, "diamond_outline") {
            ArrowheadKind::DiamondOutline
        } else if same_text(tag, "crowfoot_many") {
            ArrowheadKind::CrowfootMany
        } else if same_text(tag, "crowfoot_one") {
            ArrowheadKind::CrowfootOne
        } else if same_text(tag, "crowfoot_one_or_many") {
            ArrowheadKind::CrowfootOneOrMany
        } else {
            ArrowheadKind::Unknown
        }
    }

    /// Cap length, in units, for a stroke width of 1 before any shortening:
    /// 25 for an arrow, 12 for diamonds, 20 for crow's feet, 15 for the rest.
    pub fn base_size(self) -> (r: u32)
        ensures
            r == self.spec_base_size(),
    {
        match self {
            ArrowheadKind::Arrow => 25,
            ArrowheadKind::Diamond | ArrowheadKind::DiamondOutline => 12,
            ArrowheadKind::CrowfootMany | ArrowheadKind::CrowfootOne
            | ArrowheadKind::CrowfootOneOrMany => 20,
            _ => 15,
        }
    }

    /// Half-opening of the cap in degrees: 90 for a bar, 20 for an arrow,
    /// 25 for the rest.
    pub fn angle_degrees(self) -> (r: u32)
        ensures
            r == self.spec_angle_degrees(),
    {
        match self {
            ArrowheadKind::Bar => 90,
            ArrowheadKind::Arrow => 20,
            _ => 25,
        }
    }

    /// Largest cap length as a percentage of the end shaft segment: 25 for
    /// diamonds, 50 for the rest, so that a cap never overruns a short line.
    pub fn length_fraction_percent(self) -> (r: u32)
        ensures
            r == (if self.is_diamond() {
                25u32
            } else {
                50u32
            }),
    {
        match self {
            ArrowheadKind::Diamond | ArrowheadKind::DiamondOutline => 25,
            _ => 50,
        }
    }

    /// The geometry the cap is made of.
    pub fn shape(self) -> (r: CapShape)
        ensures
            r == self.spec_shape(),
    {
        match self {
            ArrowheadKind::Arrow => CapShape::OpenArrow,
            ArrowheadKind::Bar => CapShape::Bar,
            ArrowheadKind::Dot | ArrowheadKind::Circle | ArrowheadKind::CircleOutline => CapShape::Circle,
            ArrowheadKind::Triangle | ArrowheadKind::TriangleOutline => CapShape::Triangle,
            ArrowheadKind::Diamond | ArrowheadKind::DiamondOutline => CapShape::Diamond,
            ArrowheadKind::CrowfootMany | ArrowheadKind::CrowfootOne
            | ArrowheadKind::CrowfootOneOrMany => CapShape::Crowfoot,
            ArrowheadKind::Unknown => CapShape::Empty,
        }
    }

    /// The geometry drawn at a line end: nothing when the shaft is
    /// degenerate (its tail and tip coincide), else the kind's shape.
    pub fn cap_shape(self, degenerate_shaft: bool) -> (r: CapShape)
        ensures
            r == self.spec_cap_shape(degenerate_shaft),
    {
        if degenerate_shaft {
            CapShape::Empty
        } else {
            self.shape()
        }
    }

    /// What the inside of the cap is painted with.
    pub fn fill(self) -> (r: CapFill)
        ensures
            r == match self {
                ArrowheadKind::Dot | ArrowheadKind::Circle | ArrowheadKind::Triangle
                | ArrowheadKind::Diamond => CapFill::StrokeColor,
                ArrowheadKind::CircleOutline | ArrowheadKind::TriangleOutline
                | ArrowheadKind::DiamondOutline => CapFill::BackgroundColor,
                _ => CapFill::NoFill,
            },
    {
        match self {
            ArrowheadKind::Dot | ArrowheadKind::Circle | ArrowheadKind::Triangle
            | ArrowheadKind::Diamond => CapFill::StrokeColor,
            ArrowheadKind::CircleOutline | ArrowheadKind::TriangleOutline
            | ArrowheadKind::DiamondOutline => CapFill::BackgroundColor,
            _ => CapFill::NoFill,
        }
    }

    /// Whether a rough drawing adds a second, jittered copy of the cap:
    /// every kind but the dot.
    pub fn has_rough_copy(self) -> (r: bool)
        ensures
            r == (self != ArrowheadKind::Dot),
    {
        !matches!(self, ArrowheadKind::Dot)
    }
}

impl CapShape {
    pub open spec fn spec_point_count(self) -> usize {
        match self {
            CapShape::Empty => 0usize,
            CapShape::Circle => 1usize,
            CapShape::Bar => 2usize,
            CapShape::Diamond => 4usize,
            _ => 3usize,
        }
    }

    /// How many points the cap's geometry is made of (a circle counts its
    /// centre only; its diameter is a separate number).
    pub fn point_count(self) -> (r: usize)
        ensures
            r == self.spec_point_count(),
    {
        match self {
            CapShape::Empty => 0,
            CapShape::Circle => 1,
            CapShape::Bar => 2,
            CapShape::Diamond => 4,
            _ => 3,
        }
    }

    /// Whether the flank points are found by turning the tip about the base
    /// point (crow's feet), instead of turning the shaft direction about the
    /// point one cap length back from the tip.
    pub fn flanks_turn_tip_about_base(self) -> (r: bool)
        ensures
            r == (self == CapShape::Crowfoot),
    {
        matches!(self, CapShape::Crowfoot)
    }
}

/// A degenerate shaft, whose tail and tip coincide, gets no arrowhead
/// whatever its kind, and so does a tag that names no kind.
pub proof fn lemma_degenerate_shaft_draws_nothing(kind: ArrowheadKind)
    ensures
        kind.spec_cap_shape(true) == CapShape::Empty,
        kind.spec_cap_shape(true).spec_point_count() == 0,
        ArrowheadKind::Unknown.spec_cap_shape(false).spec_point_count() == 0,
        kind != ArrowheadKind::Unknown ==> kind.spec_cap_shape(false).spec_point_count() > 0,
{
}

/// Growth of the cap length per unit of stroke width above 1, in percent:
/// the cap is scaled by `1 + (strokeWidth - 1) * 0.3`.
pub const SIZE_GAIN_PERCENT: u32 = 30;

/// Cap length for a stroke width of 1, for an arrowhead tag.
pub fn get_arrowhead_size(arrowhead: &str) -> (r: u32)
    ensures
        r == arrowhead_kind_of(arrowhead@).spec_base_size(),
{
    ArrowheadKind::from_tag(arrowhead).base_size()
}

/// Half-opening of the cap in degrees, for an arrowhead tag.
pub fn get_arrowhead_angle(arrowhead: &str) -> (r: u32)
    ensures
        r == arrowhead_kind_of(arrowhead@).spec_angle_degrees(),
{
    ArrowheadKind::from_tag(arrowhead).angle_degrees()
}

} // verus!
