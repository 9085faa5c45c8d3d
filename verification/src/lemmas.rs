use vstd::prelude::*;

use crate::extract::is_drawing;
use crate::extract::line_segment;
use crate::extract::next_state;
use crate::extract::op_segment;
use crate::extract::run_segments;
use crate::extract::run_state;
use crate::extract::segments_of;
use crate::extract::step_segments;
use crate::extract::Traversal;
use crate::path::PathOp;
use crate::segment::Segment;

verus! {

/// Running one more operation advances the final state by one step.
pub proof fn lemma_run_state_snoc(s: Traversal, ops: Seq<PathOp>, op: PathOp)
    ensures
        run_state(s, ops.push(op)) == next_state(run_state(s, ops), op),
    decreases ops.len(),
{
    if ops.len() == 0 {
        assert(ops.push(op)[0] == op);
        assert(ops.push(op).skip(1) =~= Seq::<PathOp>::empty());
        assert(run_state(s, ops.push(op)) == run_state(
            next_state(s, op),
            Seq::<PathOp>::empty(),
        ));
        assert(run_state(s, ops) == s);
    } else {
        assert(ops.push(op)[0] == ops[0]);
        assert(ops.push(op).skip(1) =~= ops.skip(1).push(op));
        assert(run_state(s, ops.push(op)) == run_state(
            next_state(s, ops[0]),
            ops.skip(1).push(op),
        ));
        lemma_run_state_snoc(next_state(s, ops[0]), ops.skip(1), op);
        assert(run_state(s, ops) == run_state(next_state(s, ops[0]), ops.skip(1)));
    }
}

/// Running one more operation edits the final output by one step.
pub proof fn lemma_run_segments_snoc(
    s: Traversal,
    segs: Seq<Segment>,
    ops: Seq<PathOp>,
    op: PathOp,
)
    ensures
        run_segments(s, segs, ops.push(op)) == step_segments(
            run_state(s, ops),
            run_segments(s, segs, ops),
            op,
        ),
    decreases ops.len(),
{
    if ops.len() == 0 {
        assert(ops.push(op)[0] == op);
        assert(ops.push(op).skip(1) =~= Seq::<PathOp>::empty());
        assert(run_segments(s, segs, ops.push(op)) == run_segments(
            next_state(s, op),
            step_segments(s, segs, op),
            Seq::<PathOp>::empty(),
        ));
        assert(run_segments(s, segs, ops) == segs);
        assert(run_state(s, ops) == s);
    } else {
        assert(ops.push(op)[0] == ops[0]);
        assert(ops.push(op).skip(1) =~= ops.skip(1).push(op));
        assert(run_segments(s, segs, ops.push(op)) == run_segments(
            next_state(s, ops[0]),
            step_segments(s, segs, ops[0]),
            ops.skip(1).push(op),
        ));
        lemma_run_segments_snoc(
            next_state(s, ops[0]),
            step_segments(s, segs, ops[0]),
            ops.skip(1),
            op,
        );
        lemma_run_state_snoc(s, ops, op);
        assert(run_segments(s, segs, ops) == run_segments(
            next_state(s, ops[0]),
            step_segments(s, segs, ops[0]),
            ops.skip(1),
        ));
        assert(run_state(s, ops) == run_state(next_state(s, ops[0]), ops.skip(1)));
    }
}

/// A pending placeholder always has an entry under it: whenever the state
/// says the current subpath's entry is still the placeholder, the output
/// is non-empty.
pub proof fn lemma_pending_nonempty(s: Traversal, segs: Seq<Segment>, ops: Seq<PathOp>)
    requires
        s.pending ==> segs.len() > 0,
    ensures
        run_state(s, ops).pending ==> run_segments(s, segs, ops).len() > 0,
    decreases ops.len(),
{
    if ops.len() > 0 {
        lemma_pending_nonempty(next_state(s, ops[0]), step_segments(s, segs, ops[0]), ops.skip(1));
    }
}

/// The output only ever grows, and all entries but the most recent one are
/// settled: one more operation appends at most one entry and never
/// reorders, removes, or rewrites anything before the last entry.
pub proof fn lemma_output_stable(ops: Seq<PathOp>, op: PathOp)
    ensures
        segments_of(ops).len() <= segments_of(ops.push(op)).len(),
        segments_of(ops.push(op)).len() <= segments_of(ops).len() + 1,
        forall|i: int|
            0 <= i < segments_of(ops).len() - 1 ==> segments_of(ops.push(op))[i] == segments_of(
                ops,
            )[i],
{
    lemma_run_segments_snoc(Traversal::initial(), Seq::empty(), ops, op);
}

/// The pending flag is syntactic: after a non-empty operation sequence a
/// placeholder is pending exactly when the last operation was a `MoveTo`.
/// With this, the premise of `lemma_close_noop_when_not_pending` can be
/// read off the operation sequence itself.
pub proof fn lemma_pending_follows_move(s: Traversal, ops: Seq<PathOp>)
    requires
        ops.len() > 0,
    ensures
        run_state(s, ops).pending <==> ops.last() is MoveTo,
    decreases ops.len(),
{
    assert(run_state(s, ops) == run_state(next_state(s, ops[0]), ops.skip(1)));
    if ops.len() == 1 {
        assert(ops.skip(1) =~= Seq::<PathOp>::empty());
        assert(run_state(next_state(s, ops[0]), ops.skip(1)) == next_state(s, ops[0]));
        assert(ops.last() == ops[0]);
    } else {
        lemma_pending_follows_move(next_state(s, ops[0]), ops.skip(1));
        assert(ops.skip(1).last() == ops.last());
    }
}

/// Order preservation: a `MoveTo` always appends a fresh degenerate entry
/// for its new subpath; it never merges with, or alters, anything that
/// earlier subpaths produced.
pub proof fn lemma_move_to_appends(ops: Seq<PathOp>, x: u64, y: u64)
    ensures
        segments_of(ops.push(PathOp::MoveTo { x, y })) == segments_of(ops).push(
            Segment::Degenerate { x, y },
        ),
{
    lemma_run_segments_snoc(Traversal::initial(), Seq::empty(), ops, PathOp::MoveTo { x, y });
}

/// Pending merge: a `MoveTo` followed immediately by exactly one drawing
/// operation yields exactly one new output entry — the drawing operation
/// overwrites the placeholder instead of standing beside it, and the new
/// entry is the segment that operation draws from (x, y).
pub proof fn lemma_pending_merge(ops: Seq<PathOp>, x: u64, y: u64, d: PathOp)
    requires
        is_drawing(d),
    ensures
        segments_of(ops.push(PathOp::MoveTo { x, y }).push(d)) == segments_of(ops).push(
            op_segment(next_state(run_state(Traversal::initial(), ops), PathOp::MoveTo { x, y }), d),
        ),
        segments_of(ops.push(PathOp::MoveTo { x, y }).push(d)).len() == segments_of(ops).len()
            + 1,
{
    let moved = ops.push(PathOp::MoveTo { x, y });
    let after_move = next_state(run_state(Traversal::initial(), ops), PathOp::MoveTo { x, y });
    lemma_move_to_appends(ops, x, y);
    lemma_run_state_snoc(Traversal::initial(), ops, PathOp::MoveTo { x, y });
    lemma_run_segments_snoc(Traversal::initial(), Seq::empty(), moved, d);
    let before = segments_of(ops);
    assert(before.push(Segment::Degenerate { x, y }).update(
        before.len() as int,
        op_segment(after_move, d),
    ) =~= before.push(op_segment(after_move, d)));
}

/// Multi-draw: a `MoveTo` followed by two `LineTo`s yields exactly two new
/// entries — the first line overwrites the placeholder, the second line
/// appends — and they are the two straight segments between the three
/// points, in order.
pub proof fn lemma_multi_draw(
    ops: Seq<PathOp>,
    x0: u64, y0: u64,
    x1: u64, y1: u64,
    x2: u64, y2: u64,
)
    ensures
        segments_of(
            ops.push(PathOp::MoveTo { x: x0, y: y0 }).push(PathOp::LineTo { x: x1, y: y1 }).push(
                PathOp::LineTo { x: x2, y: y2 },
            ),
        ) == segments_of(ops).push(line_segment(x0, y0, x1, y1)).push(
            line_segment(x1, y1, x2, y2),
        ),
{
    let init = Traversal::initial();
    let moved = ops.push(PathOp::MoveTo { x: x0, y: y0 });
    let lined = moved.push(PathOp::LineTo { x: x1, y: y1 });
    lemma_move_to_appends(ops, x0, y0);
    lemma_run_state_snoc(init, ops, PathOp::MoveTo { x: x0, y: y0 });
    lemma_run_segments_snoc(init, Seq::empty(), moved, PathOp::LineTo { x: x1, y: y1 });
    lemma_run_state_snoc(init, moved, PathOp::LineTo { x: x1, y: y1 });
    let before = segments_of(ops);
    assert(before.push(Segment::Degenerate { x: x0, y: y0 }).update(
        before.len() as int,
        line_segment(x0, y0, x1, y1),
    ) =~= before.push(line_segment(x0, y0, x1, y1)));
    lemma_run_segments_snoc(init, Seq::empty(), lined, PathOp::LineTo { x: x2, y: y2 });
}

/// Straight-line tangent identity: a `LineTo(x, y)` drawn from the current
/// point (x1, y1) always leaves, as the most recent output entry, the
/// straight segment whose control points sit on its endpoints — (x2, y2)
/// on (x, y) and (x3, y3) on (x1, y1) — so that the start tangent
/// (x2, y2) − (x1, y1) and the end tangent (x4, y4) − (x3, y3) both point
/// from (x1, y1) towards (x, y).
pub proof fn lemma_line_tangents(ops: Seq<PathOp>, x: u64, y: u64)
    ensures
        ({
            let s = run_state(Traversal::initial(), ops);
            let out = segments_of(ops.push(PathOp::LineTo { x, y }));
            out.len() > 0 && out.last() == line_segment(s.cur_x, s.cur_y, x, y)
        }),
{
    lemma_pending_nonempty(Traversal::initial(), Seq::empty(), ops);
    lemma_run_segments_snoc(Traversal::initial(), Seq::empty(), ops, PathOp::LineTo { x, y });
}

/// Curve tangent correction at the start: when the start control point
/// (x2, y2) coincides with the start point and the end control point does
/// not coincide with the end point, the extracted segment carries the far
/// control point in its place — its (x2, y2) and (x3, y3) are both the
/// original (x3, y3), so the start tangent no longer collapses to zero
/// length.
pub proof fn lemma_curve_start_correction(
    ops: Seq<PathOp>,
    x2: u64, y2: u64,
    x3: u64, y3: u64,
    x4: u64, y4: u64,
)
    ensures
        ({
            let s = run_state(Traversal::initial(), ops);
            let out = segments_of(
                ops.push(
                    PathOp::CurveTo {
                        x2, y2, x3, y3, x4, y4,
                        start_coincident: true,
                        end_coincident: false,
                    },
                ),
            );
            out.len() > 0 && out.last() == (Segment::LineOrCurve {
                x1: s.cur_x, y1: s.cur_y, x2: x3, y2: y3, x3: x3, y3: y3, x4, y4,
            })
        }),
{
    lemma_pending_nonempty(Traversal::initial(), Seq::empty(), ops);
    lemma_run_segments_snoc(
        Traversal::initial(),
        Seq::empty(),
        ops,
        PathOp::CurveTo { x2, y2, x3, y3, x4, y4, start_coincident: true, end_coincident: false },
    );
}

/// Curve tangent correction at the end: when the end control point
/// (x3, y3) coincides with the end point and the start control point does
/// not coincide with the start point, the extracted segment carries the
/// start control point in its place — its (x2, y2) and (x3, y3) are both
/// the original (x2, y2).
pub proof fn lemma_curve_end_correction(
    ops: Seq<PathOp>,
    x2: u64, y2: u64,
    x3: u64, y3: u64,
    x4: u64, y4: u64,
)
    ensures
        ({
            let s = run_state(Traversal::initial(), ops);
            let out = segments_of(
                ops.push(
                    PathOp::CurveTo {
                        x2, y2, x3, y3, x4, y4,
                        start_coincident: false,
                        end_coincident: true,
                    },
                ),
            );
            out.len() > 0 && out.last() == (Segment::LineOrCurve {
                x1: s.cur_x, y1: s.cur_y, x2: x2, y2: y2, x3: x2, y3: y2, x4, y4,
            })
        }),
{
    lemma_pending_nonempty(Traversal::initial(), Seq::empty(), ops);
    lemma_run_segments_snoc(
        Traversal::initial(),
        Seq::empty(),
        ops,
        PathOp::CurveTo { x2, y2, x3, y3, x4, y4, start_coincident: false, end_coincident: true },
    );
}

/// Closing a subpath right after its `MoveTo` turns the pending
/// placeholder into the zero-length straight segment at that point: the
/// output grows by exactly that one entry for the whole subpath.
pub proof fn lemma_close_after_move(ops: Seq<PathOp>, x: u64, y: u64)
    ensures
        segments_of(ops.push(PathOp::MoveTo { x, y }).push(PathOp::ClosePath)) == segments_of(
            ops,
        ).push(line_segment(x, y, x, y)),
{
    let init = Traversal::initial();
    let moved = ops.push(PathOp::MoveTo { x, y });
    lemma_move_to_appends(ops, x, y);
    lemma_run_state_snoc(init, ops, PathOp::MoveTo { x, y });
    lemma_run_segments_snoc(init, Seq::empty(), moved, PathOp::ClosePath);
    let before = segments_of(ops);
    assert(before.push(Segment::Degenerate { x, y }).update(
        before.len() as int,
        line_segment(x, y, x, y),
    ) =~= before.push(line_segment(x, y, x, y)));
}

/// A `ClosePath` while no placeholder is pending — after drawn content, or
/// on a path that has produced nothing at all — leaves the output exactly
/// as it was. In particular a path that begins with a bare `ClosePath`
/// yields an empty output rather than a failure.
pub proof fn lemma_close_noop_when_not_pending(ops: Seq<PathOp>)
    requires
        !run_state(Traversal::initial(), ops).pending,
    ensures
        segments_of(ops.push(PathOp::ClosePath)) == segments_of(ops),
{
    lemma_run_segments_snoc(Traversal::initial(), Seq::empty(), ops, PathOp::ClosePath);
}

} // verus!

