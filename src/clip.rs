//! Cohen–Sutherland line clipping against an axis-aligned rectangle, as a
//! sequence of decisions on region codes.
//!
//! Each endpoint of a segment gets a region code saying on which sides of the
//! rectangle it lies. From the two codes, [`clip_step`] decides whether the
//! segment is kept as it is, dropped, or whether one endpoint is first moved
//! onto one edge of the rectangle; the caller moves it and asks again.
//! Hachure fills use this to trim their lines to the shape.
use vstd::prelude::*;

verus! {

/// Region code of a point inside the rectangle or on its boundary.
pub const INSIDE: u8 = 0;

/// Region bit: left of the rectangle.
pub const LEFT: u8 = 1;

/// Region bit: right of the rectangle.
pub const RIGHT: u8 = 2;

/// Region bit: below the rectangle (larger y).
pub const BOTTOM: u8 = 4;

/// Region bit: above the rectangle (smaller y).
pub const TOP: u8 = 8;

/// Spacing, in units, between neighbouring hachure lines.
pub const HACHURE_GAP: u32 = 4;

/// Direction of hachure lines, in degrees, relative to the shape's rotation.
pub const HACHURE_ANGLE_DEGREES: i32 = -45;

/// Offsets of the hachure lines of a shape.
pub open spec fn hachure_offsets_of(num_lines: u32, has_area: bool) -> Seq<i64> {
    if has_area {
        Seq::new(
            (2 * num_lines + 1) as nat,
            |k: int| ((k - num_lines) * HACHURE_GAP) as i64,
        )
    } else {
        seq![]
    }
}

/// Offsets, in units across the hachure direction, of the parallel lines
/// that fill a shape: the centre line and `num_lines` lines on each side,
/// the hachure gap apart; none at all for a shape without area.
pub fn hachure_offsets(num_lines: u32, has_area: bool) -> (r: Vec<i64>)
    ensures
        r@ == hachure_offsets_of(num_lines, has_area),
{
    let mut v: Vec<i64> = Vec::new();
    if !has_area {
        proof {
            assert(v@ =~= hachure_offsets_of(num_lines, has_area));
        }
        return v;
    }
    let n = num_lines as i64;
    let gap = HACHURE_GAP as i64;
    let mut i: i64 = -n;
    while i <= n
        invariant
            n == num_lines,
            gap == HACHURE_GAP,
            0 <= n <= u32::MAX,
            -n <= i <= n + 1,
            has_area,
            v@ =~= hachure_offsets_of(num_lines, has_area).subrange(0, i + n),
        decreases n + 1 - i,
    {
        v.push(i * gap);
        i += 1;
    }
    proof {
        assert(hachure_offsets_of(num_lines, has_area).subrange(0, 2 * n + 1) =~= hachure_offsets_of(
            num_lines,
            has_area,
        ));
    }
    v
}

/// Whether region bit `b` is set in code `c`.
pub open spec fn has_bit(c: u8, b: u8) -> bool {
    (c / b) % 2 == 1
}

/// Region code of a point from its position relative to the rectangle's
/// sides. Left is checked before right and top before bottom.
pub open spec fn outcode_of(left_of: bool, right_of: bool, above: bool, below: bool) -> u8 {
    let h: int = if left_of {
        1
    } else if right_of {
        2
    } else {
        0
    };
    let v: int = if above {
        8
    } else if below {
        4
    } else {
        0
    };
    (h + v) as u8
}

/// The codes [`outcode`] can produce.
pub open spec fn valid_code(c: u8) -> bool {
    c % 4 != 3 && c < 12
}

/// Edge of the rectangle that an endpoint is moved onto.
#[derive(Clone, Copy, Debug, PartialEq, Eq, Structural)]
pub enum ClipEdge {
    Top,
    Bottom,
    Right,
    Left,
}

/// The next step of clipping a segment.
#[derive(Clone, Copy, Debug, PartialEq, Eq, Structural)]
pub enum ClipStep {
    /// Both endpoints are inside: keep the segment as it now stands.
    Accept,
    /// Both endpoints lie beyond one side: drop the segment.
    Reject,
    /// Move the first endpoint onto this edge, then decide again.
    MoveFirst(ClipEdge),
    /// Move the second endpoint onto this edge, then decide again.
    MoveSecond(ClipEdge),
}

/// Whether two codes share a region bit, i.e. both points lie beyond the
/// same side.
pub open spec fn share_side(c1: u8, c2: u8) -> bool {
    ||| has_bit(c1, LEFT) && has_bit(c2, LEFT)
    ||| has_bit(c1, RIGHT) && has_bit(c2, RIGHT)
    ||| has_bit(c1, BOTTOM) && has_bit(c2, BOTTOM)
    ||| has_bit(c1, TOP) && has_bit(c2, TOP)
}

/// The edge an outside point is moved onto first: top, then bottom, then
/// right, then left.
pub open spec fn edge_for(c: u8) -> ClipEdge {
    if has_bit(c, TOP) {
        ClipEdge::Top
    } else if has_bit(c, BOTTOM) {
        ClipEdge::Bottom
    } else if has_bit(c, RIGHT) {
        ClipEdge::Right
    } else {
        ClipEdge::Left
    }
}

pub open spec fn clip_step_of(c1: u8, c2: u8) -> ClipStep {
    if c1 == INSIDE && c2 == INSIDE {
        ClipStep::Accept
    } else if share_side(c1, c2) {
        ClipStep::Reject
    } else if c1 != INSIDE {
        ClipStep::MoveFirst(edge_for(c1))
    } else {
        ClipStep::MoveSecond(edge_for(c2))
    }
}

/// Region code of a point: `LEFT` or `RIGHT`, plus `TOP` or `BOTTOM`.
pub fn outcode(left_of: bool, right_of: bool, above: bool, below: bool) -> (r: u8)
    ensures
        r == outcode_of(left_of, right_of, above, below),
        valid_code(r),
{
    let mut code = INSIDE;
    if left_of {
        code = code + LEFT;
    } else if right_of {
        code = code + RIGHT;
    }
    if above {
        code = code + TOP;
    } else if below {
        code = code + BOTTOM;
    }
    code
}

fn bit(c: u8, b: u8) -> (r: bool)
    requires
        b > 0,
    ensures
        r == has_bit(c, b),
{
    (c / b) % 2 == 1
}

fn edge_of(c: u8) -> (r: ClipEdge)
    ensures
        r == edge_for(c),
{
    if bit(c, TOP) {
        ClipEdge::Top
    } else if bit(c, BOTTOM) {
        ClipEdge::Bottom
    } else if bit(c, RIGHT) {
        ClipEdge::Right
    } else {
        ClipEdge::Left
    }
}

/// Decides the next step of clipping a segment whose endpoints have the
/// region codes `code1` and `code2`.
pub fn clip_step(code1: u8, code2: u8) -> (r: ClipStep)
    ensures
        r == clip_step_of(code1, code2),
{
    if code1 == INSIDE && code2 == INSIDE {
        ClipStep::Accept
    } else if (bit(code1, LEFT) && bit(code2, LEFT)) || (bit(code1, RIGHT) && bit(code2, RIGHT))
        || (bit(code1, BOTTOM) && bit(code2, BOTTOM)) || (bit(code1, TOP) && bit(code2, TOP)) {
        ClipStep::Reject
    } else if code1 != INSIDE {
        ClipStep::MoveFirst(edge_of(code1))
    } else {
        ClipStep::MoveSecond(edge_of(code2))
    }
}

/// What one clipping decision means for the segment. A point gets code
/// `INSIDE` exactly when it lies on no outer side of the rectangle. A
/// segment is kept only when both endpoints are inside or on the boundary,
/// and it is dropped whenever both endpoints lie beyond the same side. An
/// endpoint that is moved lies beyond the edge it is moved onto.
pub proof fn lemma_clip_decisions(
    l1: bool,
    r1: bool,
    a1: bool,
    b1: bool,
    l2: bool,
    r2: bool,
    a2: bool,
    b2: bool,
)
    ensures
        (outcode_of(l1, r1, a1, b1) == INSIDE) == (!l1 && !r1 && !a1 && !b1),
        clip_step_of(outcode_of(l1, r1, a1, b1), outcode_of(l2, r2, a2, b2)) == ClipStep::Accept
            <==> (!l1 && !r1 && !a1 && !b1 && !l2 && !r2 && !a2 && !b2),
        (l1 && l2) || (a1 && a2) || (!l1 && r1 && !l2 && r2) || (!a1 && b1 && !a2 && b2)
            ==> clip_step_of(outcode_of(l1, r1, a1, b1), outcode_of(l2, r2, a2, b2))
            == ClipStep::Reject,
        clip_step_of(outcode_of(l1, r1, a1, b1), outcode_of(l2, r2, a2, b2)) == ClipStep::MoveFirst(
            ClipEdge::Top,
        ) ==> a1,
        clip_step_of(outcode_of(l1, r1, a1, b1), outcode_of(l2, r2, a2, b2)) == ClipStep::MoveFirst(
            ClipEdge::Bottom,
        ) ==> b1,
        clip_step_of(outcode_of(l1, r1, a1, b1), outcode_of(l2, r2, a2, b2)) == ClipStep::MoveFirst(
            ClipEdge::Right,
        ) ==> r1,
        clip_step_of(outcode_of(l1, r1, a1, b1), outcode_of(l2, r2, a2, b2)) == ClipStep::MoveFirst(
            ClipEdge::Left,
        ) ==> l1,
        clip_step_of(outcode_of(l1, r1, a1, b1), outcode_of(l2, r2, a2, b2)) == ClipStep::MoveSecond(
            ClipEdge::Top,
        ) ==> a2,
        clip_step_of(outcode_of(l1, r1, a1, b1), outcode_of(l2, r2, a2, b2)) == ClipStep::MoveSecond(
            ClipEdge::Bottom,
        ) ==> b2,
        clip_step_of(outcode_of(l1, r1, a1, b1), outcode_of(l2, r2, a2, b2)) == ClipStep::MoveSecond(
            ClipEdge::Right,
        ) ==> r2,
        clip_step_of(outcode_of(l1, r1, a1, b1), outcode_of(l2, r2, a2, b2)) == ClipStep::MoveSecond(
            ClipEdge::Left,
        ) ==> l2,
{
}

} // verus!
