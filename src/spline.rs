//! Which input points each cubic piece of a Catmull-Rom spline is built from.
//!
//! A spline through `n` points is made of one cubic piece per consecutive
//! pair. Each piece is described here by indices into the point list; the
//! caller reads the coordinates at those indices, so two pieces that name the
//! same index share that point exactly.
use vstd::prelude::*;

verus! {

/// The points one cubic piece is built from.
#[derive(Clone, Copy, Debug, PartialEq, Eq, Structural)]
pub enum SegmentPlan {
    /// A straight piece from `from` to `to`: both control points equal the
    /// endpoints.
    Straight { from: usize, to: usize },
    /// A Catmull-Rom piece from `from` to `to`; the tangent at `from` runs
    /// from `before` to `to`, the tangent at `to` from `from` to `after`.
    Curve { before: usize, from: usize, to: usize, after: usize },
}

impl SegmentPlan {
    pub open spec fn start(self) -> usize {
        match self {
            SegmentPlan::Straight { from, .. } => from,
            SegmentPlan::Curve { from, .. } => from,
        }
    }

    pub open spec fn end(self) -> usize {
        match self {
            SegmentPlan::Straight { to, .. } => to,
            SegmentPlan::Curve { to, .. } => to,
        }
    }
}

/// An index clamped into `0..n`: the virtual points before the first and
/// after the last repeat the first and last point (the curve does not wrap).
pub open spec fn clamp_index(i: int, n: int) -> int {
    if i < 0 {
        0
    } else if i >= n {
        n - 1
    } else {
        i
    }
}

/// The pieces of the spline through `n` points.
pub open spec fn spline_plan(n: nat) -> Seq<SegmentPlan> {
    if n < 2 {
        seq![]
    } else if n == 2 {
        seq![SegmentPlan::Straight { from: 0, to: 1 }]
    } else {
        Seq::new(
            (n - 1) as nat,
            |i: int|
                SegmentPlan::Curve {
                    before: clamp_index(i - 1, n as int) as usize,
                    from: i as usize,
                    to: (i + 1) as usize,
                    after: clamp_index(i + 2, n as int) as usize,
                },
        )
    }
}

/// The pieces of the spline through `n` points: none below two points, one
/// straight piece for two, one Catmull-Rom piece per consecutive pair above.
pub fn catmull_rom_segments(n: usize) -> (r: Vec<SegmentPlan>)
    ensures
        r@ == spline_plan(n as nat),
{
    let mut segs: Vec<SegmentPlan> = Vec::new();
    if n < 2 {
        proof {
            assert(segs@ =~= spline_plan(n as nat));
        }
        return segs;
    }
    if n == 2 {
        segs.push(SegmentPlan::Straight { from: 0, to: 1 });
        proof {
            assert(segs@ =~= spline_plan(n as nat));
        }
        return segs;
    }
    let mut i: usize = 0;
    while i < n - 1
        invariant
            n >= 3,
            i <= n - 1,
            segs@ =~= spline_plan(n as nat).subrange(0, i as int),
        decreases n - 1 - i,
    {
        let before = if i == 0 {
            0
        } else {
            i - 1
        };
        let after = if i + 2 >= n {
            n - 1
        } else {
            i + 2
        };
        segs.push(SegmentPlan::Curve { before, from: i, to: i + 1, after });
        i += 1;
    }
    proof {
        assert(spline_plan(n as nat).subrange(0, (n - 1) as int) =~= spline_plan(n as nat));
    }
    segs
}

/// Consecutive pieces of a spline through three or more points join
/// exactly: each piece ends at the point where the next one starts, the
/// first starts at the first point and the last ends at the last point.
pub proof fn lemma_spline_continuity(n: usize)
    requires
        n >= 3,
    ensures
        spline_plan(n as nat).len() == n - 1,
        spline_plan(n as nat)[0].start() == 0,
        spline_plan(n as nat)[n - 2].end() == n - 1,
        forall|i: int|
            0 <= i < n - 2 ==> #[trigger] spline_plan(n as nat)[i].end() == spline_plan(
                n as nat,
            )[i + 1].start(),
{
}

/// The two points whose difference gives the local direction of a polyline
/// at vertex `i` of `n`: the first two points at the start, the last two at
/// the end, and the neighbours on either side in between.
pub fn tangent_neighbours(i: usize, n: usize) -> (r: (usize, usize))
    requires
        2 <= n,
        i < n,
    ensures
        r == (if i == 0 {
            (0usize, 1usize)
        } else if i == n - 1 {
            ((n - 2) as usize, i)
        } else {
            ((i - 1) as usize, (i + 1) as usize)
        }),
        r.0 < r.1 < n,
{
    if i == 0 {
        (0, 1)
    } else if i == n - 1 {
        (n - 2, i)
    } else {
        (i - 1, i + 1)
    }
}

/// Which end of a line an arrowhead sits on.
#[derive(Clone, Copy, Debug, PartialEq, Eq, Structural)]
pub enum ArrowEnd {
    Start,
    End,
}

/// Where the direction of an arrowhead is read from.
#[derive(Clone, Copy, Debug, PartialEq, Eq, Structural)]
pub struct DirectionPlan {
    /// The spline piece nearest to the arrowhead.
    pub segment: usize,
    /// Whether the tip is the piece's end point (else its start point).
    pub tip_at_end: bool,
    /// Curve parameter, in percent, of the point the arrowhead points away from.
    pub t_percent: u32,
    /// The input point at the tip end of the end shaft segment.
    pub shaft_tip: usize,
    /// The other input point of the end shaft segment; the distance between
    /// the two is the shaft length.
    pub shaft_tail: usize,
}

pub open spec fn direction_plan_of(n: nat, end: ArrowEnd) -> Option<DirectionPlan> {
    if n < 2 {
        None
    } else {
        match end {
            ArrowEnd::Start => Some(
                DirectionPlan { segment: 0, tip_at_end: false, t_percent: 30, shaft_tip: 0, shaft_tail: 1 },
            ),
            ArrowEnd::End => Some(
                DirectionPlan {
                    segment: (spline_plan(n).len() - 1) as usize,
                    tip_at_end: true,
                    t_percent: 70,
                    shaft_tip: (n - 1) as usize, shaft_tail: (n - 2) as usize,
                },
            ),
        }
    }
}

/// Where the direction of the arrowhead at one end of a curved line through
/// `n` points is read from: near the start at `t = 0.3` of the first piece,
/// near the end at `t = 0.7` of the last; none below two points.
pub fn arrowhead_direction_plan(n: usize, end: ArrowEnd) -> (r: Option<DirectionPlan>)
    ensures
        r == direction_plan_of(n as nat, end),
{
    if n < 2 {
        return None;
    }
    match end {
        ArrowEnd::Start => Some(DirectionPlan { segment: 0, tip_at_end: false, t_percent: 30, shaft_tip: 0, shaft_tail: 1 }),
        ArrowEnd::End => Some(
            DirectionPlan { segment: n - 2, tip_at_end: true, t_percent: 70, shaft_tip: n - 1, shaft_tail: n - 2 },
        ),
    }
}

} // verus!
