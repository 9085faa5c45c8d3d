use vstd::prelude::*;

verus! {

/// One operation of a drawn path, in traversal order.
///
/// Coordinates are carried as opaque 64-bit words; a caller typically
/// stores IEEE 754 double bit patterns in them. The extractor only records
/// and copies coordinates, it never computes with them. The one numeric
/// question the extraction depends on — whether a control point of a
/// `CurveTo` coincides with the adjacent endpoint, up to the caller's
/// tolerance — is answered by the caller through the two booleans on
/// `CurveTo`.
#[derive(Clone, Copy, Debug, PartialEq, Eq, Structural)]
pub enum PathOp {
    /// Begins a new subpath at (x, y).
    MoveTo { x: u64, y: u64 },
    /// A straight segment from the current point to (x, y).
    LineTo { x: u64, y: u64 },
    /// A cubic segment from the current point (x1, y1) through the control
    /// points (x2, y2) and (x3, y3) to the endpoint (x4, y4).
    ///
    /// `start_coincident` says whether (x2, y2) coincides with the current
    /// point (x1, y1); `end_coincident` whether (x3, y3) coincides with
    /// (x4, y4). Both are judged by the caller against its own numeric
    /// tolerance on the coordinate values the words stand for; the start
    /// point a curve is judged against is what [`crate::start_points`]
    /// reports for it.
    CurveTo {
        x2: u64,
        y2: u64,
        x3: u64,
        y3: u64,
        x4: u64,
        y4: u64,
        start_coincident: bool,
        end_coincident: bool,
    },
    /// A straight segment from the current point back to the point where
    /// the current subpath started.
    ClosePath,
}

} // verus!
