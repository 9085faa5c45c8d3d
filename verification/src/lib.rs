//! Extraction of oriented-marker segments from a drawn vector path.
//!
//! A path arrives as an ordered sequence of move/line/curve/close
//! operations ([`PathOp`]); the extractor turns it into an ordered list of
//! [`Segment`] values, each carrying the control points from which a
//! marker-placement consumer derives the tangent directions used to orient
//! marker symbols (arrowheads, dots) along the path.

pub mod extract;
pub mod lemmas;
pub mod path;
pub mod segment;

pub use extract::path_to_segments;
pub use extract::start_points;
pub use path::PathOp;
pub use segment::Segment;
