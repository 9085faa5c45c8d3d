use vstd::prelude::*;

use crate::lemmas::lemma_run_state_snoc;
use crate::path::PathOp;
use crate::segment::Segment;

verus! {

/// Traversal state of the extractor: the current point, the start point of
/// the current subpath, and whether the entry for the current subpath is
/// still the pending placeholder appended by its `MoveTo`.
#[derive(Clone, Copy, Debug, PartialEq, Eq, Structural)]
pub struct Traversal {
    pub cur_x: u64,
    pub cur_y: u64,
    pub start_x: u64,
    pub start_y: u64,
    pub pending: bool,
}

impl Traversal {
    /// The state before any operation: current point and subpath start at
    /// the zero word (the origin, for callers storing double bit
    /// patterns), no placeholder pending.
    pub open spec fn initial() -> Traversal {
        Traversal { cur_x: 0, cur_y: 0, start_x: 0, start_y: 0, pending: false }
    }
}

/// The straight segment from (x1, y1) to (x4, y4): the control points sit
/// on the endpoints — (x2, y2) on the end point and (x3, y3) on the start
/// point — so the start tangent (x2, y2) − (x1, y1) and the end tangent
/// (x4, y4) − (x3, y3) both point from the start towards the end.
pub open spec fn line_segment(x1: u64, y1: u64, x4: u64, y4: u64) -> Segment {
    Segment::LineOrCurve { x1: x1, y1: y1, x2: x4, y2: y4, x3: x1, y3: y1, x4: x4, y4: y4 }
}

/// The cubic segment from (x1, y1) through (x2, y2) and (x3, y3) to
/// (x4, y4), with degenerate tangents corrected: a start control point
/// that coincides with the start point is replaced by the far control
/// point, and an end control point that coincides with the end point is
/// replaced by the (possibly already corrected) start control point.
pub open spec fn curve_segment(
    x1: u64, y1: u64,
    x2: u64, y2: u64,
    x3: u64, y3: u64,
    x4: u64, y4: u64,
    start_coincident: bool,
    end_coincident: bool,
) -> Segment {
    let cx2 = if start_coincident { x3 } else { x2 };
    let cy2 = if start_coincident { y3 } else { y2 };
    let cx3 = if end_coincident { cx2 } else { x3 };
    let cy3 = if end_coincident { cy2 } else { y3 };
    Segment::LineOrCurve { x1: x1, y1: y1, x2: cx2, y2: cy2, x3: cx3, y3: cy3, x4: x4, y4: y4 }
}

/// Whether an operation draws from the current point: a `LineTo` or a
/// `CurveTo`, the operations that extend the current subpath with a real
/// segment.
pub open spec fn is_drawing(op: PathOp) -> bool {
    op is LineTo || op is CurveTo
}

/// The traversal state after one operation.
pub open spec fn next_state(s: Traversal, op: PathOp) -> Traversal {
    match op {
        PathOp::MoveTo { x, y } => Traversal {
            cur_x: x, cur_y: y, start_x: x, start_y: y, pending: true,
        },
        PathOp::LineTo { x, y } => Traversal {
            cur_x: x, cur_y: y, start_x: s.start_x, start_y: s.start_y, pending: false,
        },
        PathOp::CurveTo { x4, y4, .. } => Traversal {
            cur_x: x4, cur_y: y4, start_x: s.start_x, start_y: s.start_y, pending: false,
        },
        PathOp::ClosePath => Traversal {
            cur_x: s.start_x, cur_y: s.start_y, start_x: s.start_x, start_y: s.start_y,
            pending: false,
        },
    }
}

/// The segment one operation contributes, as seen from state s.
pub open spec fn op_segment(s: Traversal, op: PathOp) -> Segment {
    match op {
        PathOp::MoveTo { x, y } => Segment::Degenerate { x: x, y: y },
        PathOp::LineTo { x, y } => line_segment(s.cur_x, s.cur_y, x, y),
        PathOp::CurveTo { x2, y2, x3, y3, x4, y4, start_coincident, end_coincident } =>
            curve_segment(
                s.cur_x, s.cur_y, x2, y2, x3, y3, x4, y4, start_coincident, end_coincident,
            ),
        PathOp::ClosePath => line_segment(s.cur_x, s.cur_y, s.start_x, s.start_y),
    }
}

/// How one operation edits the output: a `MoveTo` always appends its
/// placeholder; a drawing operation overwrites the placeholder when one is
/// pending and appends otherwise; a `ClosePath` only ever overwrites a
/// pending placeholder — after drawn content, or on an output with no
/// entry at all, it leaves the output untouched.
pub open spec fn step_segments(s: Traversal, segs: Seq<Segment>, op: PathOp) -> Seq<Segment> {
    let seg = op_segment(s, op);
    match op {
        PathOp::MoveTo { .. } => segs.push(seg),
        PathOp::ClosePath => if s.pending && segs.len() > 0 {
            segs.update(segs.len() - 1, seg)
        } else {
            segs
        },
        _ => if s.pending && segs.len() > 0 {
            segs.update(segs.len() - 1, seg)
        } else {
            segs.push(seg)
        },
    }
}

/// The traversal state after a whole operation sequence.
pub open spec fn run_state(s: Traversal, ops: Seq<PathOp>) -> Traversal
    decreases ops.len(),
{
    if ops.len() == 0 {
        s
    } else {
        run_state(next_state(s, ops[0]), ops.skip(1))
    }
}

/// The output after a whole operation sequence, starting from state s and
/// an already-produced output segs.
pub open spec fn run_segments(s: Traversal, segs: Seq<Segment>, ops: Seq<PathOp>) -> Seq<Segment>
    decreases ops.len(),
{
    if ops.len() == 0 {
        segs
    } else {
        run_segments(next_state(s, ops[0]), step_segments(s, segs, ops[0]), ops.skip(1))
    }
}

/// The full extraction: the segments produced by an operation sequence,
/// run from the initial state on an empty output.
pub open spec fn segments_of(ops: Seq<PathOp>) -> Seq<Segment> {
    run_segments(Traversal::initial(), Seq::empty(), ops)
}

/// The current point just before operation i of the sequence: the point a
/// drawing operation at that position starts from.
pub open spec fn start_point(ops: Seq<PathOp>, i: int) -> (u64, u64) {
    let s = run_state(Traversal::initial(), ops.take(i));
    (s.cur_x, s.cur_y)
}

/// Advances the traversal state over one operation.
fn advance(s: Traversal, op: PathOp) -> (next: Traversal)
    ensures
        next == next_state(s, op),
{
    match op {
        PathOp::MoveTo { x, y } => Traversal {
            cur_x: x, cur_y: y, start_x: x, start_y: y, pending: true,
        },
        PathOp::LineTo { x, y } => Traversal {
            cur_x: x, cur_y: y, start_x: s.start_x, start_y: s.start_y, pending: false,
        },
        PathOp::CurveTo { x4, y4, .. } => Traversal {
            cur_x: x4, cur_y: y4, start_x: s.start_x, start_y: s.start_y, pending: false,
        },
        PathOp::ClosePath => Traversal {
            cur_x: s.start_x, cur_y: s.start_y, start_x: s.start_x, start_y: s.start_y,
            pending: false,
        },
    }
}

/// Applies one operation: edits the output as `step_segments` describes
/// and advances the traversal state.
fn apply_op(s: Traversal, segments: &mut Vec<Segment>, op: PathOp) -> (next: Traversal)
    ensures
        next == next_state(s, op),
        final(segments)@ == step_segments(s, old(segments)@, op),
        next.pending ==> final(segments)@.len() > 0,
{
    let seg: Segment = match op {
        PathOp::MoveTo { x, y } => Segment::Degenerate { x: x, y: y },
        PathOp::LineTo { x, y } => Segment::LineOrCurve {
            x1: s.cur_x, y1: s.cur_y, x2: x, y2: y, x3: s.cur_x, y3: s.cur_y, x4: x, y4: y,
        },
        PathOp::CurveTo { x2, y2, x3, y3, x4, y4, start_coincident, end_coincident } => {
            let cx2 = if start_coincident { x3 } else { x2 };
            let cy2 = if start_coincident { y3 } else { y2 };
            let cx3 = if end_coincident { cx2 } else { x3 };
            let cy3 = if end_coincident { cy2 } else { y3 };
            Segment::LineOrCurve {
                x1: s.cur_x, y1: s.cur_y, x2: cx2, y2: cy2, x3: cx3, y3: cy3, x4: x4, y4: y4,
            }
        },
        PathOp::ClosePath => Segment::LineOrCurve {
            x1: s.cur_x, y1: s.cur_y, x2: s.start_x, y2: s.start_y,
            x3: s.cur_x, y3: s.cur_y, x4: s.start_x, y4: s.start_y,
        },
    };
    let replaces_placeholder = s.pending && segments.len() > 0;
    match op {
        PathOp::MoveTo { .. } => segments.push(seg),
        PathOp::ClosePath => if replaces_placeholder {
            let n = segments.len();
            segments[n - 1] = seg;
        },
        _ => if replaces_placeholder {
            let n = segments.len();
            segments[n - 1] = seg;
        } else {
            segments.push(seg);
        },
    }
    advance(s, op)
}

/// The start point of each operation: the current point just before the
/// operation at that position is applied. A caller that has to answer the
/// coincidence questions carried on `CurveTo` operations reads the point
/// each curve starts from here.
pub fn start_points(ops: &Vec<PathOp>) -> (points: Vec<(u64, u64)>)
    ensures
        points@.len() == ops@.len(),
        forall|i: int| 0 <= i < ops@.len() ==> points@[i] == start_point(ops@, i),
{
    let mut points: Vec<(u64, u64)> = Vec::new();
    let mut s = Traversal { cur_x: 0, cur_y: 0, start_x: 0, start_y: 0, pending: false };
    let mut i: usize = 0;
    proof {
        assert(ops@.take(0) =~= Seq::<PathOp>::empty());
    }
    while i < ops.len()
        invariant
            i <= ops@.len(),
            points@.len() == i,
            s == run_state(Traversal::initial(), ops@.take(i as int)),
            forall|j: int| 0 <= j < i ==> points@[j] == start_point(ops@, j),
        decreases ops@.len() - i,
    {
        points.push((s.cur_x, s.cur_y));
        let op = ops[i];
        proof {
            assert(ops@.take(i as int + 1) =~= ops@.take(i as int).push(ops@[i as int]));
            lemma_run_state_snoc(Traversal::initial(), ops@.take(i as int), ops@[i as int]);
        }
        s = advance(s, op);
        i = i + 1;
    }
    points
}

/// Converts a drawn path, given as its ordered operation sequence, into
/// the ordered list of marker segments: each `MoveTo` appends a degenerate
/// placeholder, the first drawing operation of a subpath overwrites that
/// placeholder, every further drawing operation appends, and a `ClosePath`
/// after drawn content — or with nothing in the output at all — changes
/// nothing.
pub fn path_to_segments(ops: &Vec<PathOp>) -> (segments: Vec<Segment>)
    ensures
        segments@ == segments_of(ops@),
{
    let mut segments: Vec<Segment> = Vec::new();
    let mut s = Traversal { cur_x: 0, cur_y: 0, start_x: 0, start_y: 0, pending: false };
    let mut i: usize = 0;
    proof {
        assert(ops@.skip(0) =~= ops@);
    }
    while i < ops.len()
        invariant
            i <= ops@.len(),
            s.pending ==> segments@.len() > 0,
            run_segments(s, segments@, ops@.skip(i as int)) == segments_of(ops@),
        decreases ops@.len() - i,
    {
        proof {
            assert(ops@.skip(i as int)[0] == ops@[i as int]);
            assert(ops@.skip(i as int).skip(1) =~= ops@.skip(i as int + 1));
        }
        let op = ops[i];
        s = apply_op(s, &mut segments, op);
        i = i + 1;
    }
    proof {
        assert(ops@.skip(ops@.len() as int) =~= Seq::<PathOp>::empty());
    }
    segments
}

} // verus!
