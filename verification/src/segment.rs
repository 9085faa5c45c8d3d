use vstd::prelude::*;

verus! {

/// One extracted segment of a path, ready for marker placement.
///
/// For a `LineOrCurve` the start and end points are (x1, y1) and (x4, y4);
/// the tangent at the start is the vector from (x1, y1) to (x2, y2) and
/// the tangent at the end the vector from (x3, y3) to (x4, y4). For a
/// straight line the control points sit on the endpoints — (x2, y2) on the
/// end point and (x3, y3) on the start point — so both tangents point
/// along the line.
#[derive(Clone, Copy, Debug, PartialEq, Eq, Structural)]
pub enum Segment {
    /// A single lone point: a subpath that was begun by a `MoveTo` but has
    /// not (yet) been extended by any drawing operation. It carries no
    /// direction; a consumer falls back to its default orientation.
    Degenerate { x: u64, y: u64 },
    /// A drawn segment: a line, a curve, or the straight segment a
    /// `ClosePath` draws back to the subpath start.
    LineOrCurve { x1: u64, y1: u64, x2: u64, y2: u64, x3: u64, y3: u64, x4: u64, y4: u64 },
}

} // verus!
