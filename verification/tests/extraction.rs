use marker::path_to_segments;
use marker::start_points;
use marker::PathOp;
use marker::Segment;

const EPSILON: f64 = 1e-10;

fn double_equals(a: f64, b: f64) -> bool {
    (a - b).abs() < EPSILON
}

fn bits(v: f64) -> u64 {
    v.to_bits()
}

fn move_to(x: f64, y: f64) -> PathOp {
    PathOp::MoveTo { x: bits(x), y: bits(y) }
}

fn line_to(x: f64, y: f64) -> PathOp {
    PathOp::LineTo { x: bits(x), y: bits(y) }
}

/// Builds a `CurveTo` drawn from (x1, y1), answering its two coincidence
/// questions with the tolerance comparison the extractor is used with.
fn curve_to(x1: f64, y1: f64, x2: f64, y2: f64, x3: f64, y3: f64, x4: f64, y4: f64) -> PathOp {
    PathOp::CurveTo {
        x2: bits(x2),
        y2: bits(y2),
        x3: bits(x3),
        y3: bits(y3),
        x4: bits(x4),
        y4: bits(y4),
        start_coincident: double_equals(x2, x1) && double_equals(y2, y1),
        end_coincident: double_equals(x3, x4) && double_equals(y3, y4),
    }
}

fn line_or_curve(x1: f64, y1: f64, x2: f64, y2: f64, x3: f64, y3: f64, x4: f64, y4: f64) -> Segment {
    Segment::LineOrCurve {
        x1: bits(x1),
        y1: bits(y1),
        x2: bits(x2),
        y2: bits(y2),
        x3: bits(x3),
        y3: bits(y3),
        x4: bits(x4),
        y4: bits(y4),
    }
}

fn setup_open_path() -> Vec<PathOp> {
    vec![move_to(10.0, 10.0), line_to(20.0, 10.0), line_to(20.0, 20.0)]
}

#[test]
fn path_to_segments_handles_open_path() {
    let expected_segments: Vec<Segment> = vec![
        line_or_curve(10.0, 10.0, 20.0, 10.0, 10.0, 10.0, 20.0, 10.0),
        line_or_curve(20.0, 10.0, 20.0, 20.0, 20.0, 10.0, 20.0, 20.0),
    ];

    let path = setup_open_path();
    let segments = path_to_segments(&path);

    assert_eq!(expected_segments, segments);
}

#[test]
fn empty_path_yields_no_segments() {
    let segments = path_to_segments(&vec![]);
    assert_eq!(segments, vec![]);
}

#[test]
fn move_to_alone_yields_degenerate() {
    let segments = path_to_segments(&vec![move_to(1.5, 2.5)]);
    assert_eq!(segments, vec![Segment::Degenerate { x: bits(1.5), y: bits(2.5) }]);
}

#[test]
fn move_then_line_merges_into_one_entry() {
    let segments = path_to_segments(&vec![move_to(1.0, 1.0), line_to(4.0, 5.0)]);
    assert_eq!(segments, vec![line_or_curve(1.0, 1.0, 4.0, 5.0, 1.0, 1.0, 4.0, 5.0)]);
}

#[test]
fn move_to_never_merges_backward() {
    let segments = path_to_segments(&vec![move_to(1.0, 1.0), line_to(2.0, 1.0), move_to(3.0, 3.0)]);
    assert_eq!(
        segments,
        vec![
            line_or_curve(1.0, 1.0, 2.0, 1.0, 1.0, 1.0, 2.0, 1.0),
            Segment::Degenerate { x: bits(3.0), y: bits(3.0) },
        ]
    );
}

#[test]
fn curve_keeps_distinct_control_points() {
    let segments = path_to_segments(&vec![
        move_to(0.0, 0.0),
        curve_to(0.0, 0.0, 1.0, 2.0, 3.0, 4.0, 5.0, 6.0),
    ]);
    assert_eq!(segments, vec![line_or_curve(0.0, 0.0, 1.0, 2.0, 3.0, 4.0, 5.0, 6.0)]);
}

#[test]
fn curve_start_correction_exact_coincidence() {
    let segments = path_to_segments(&vec![
        move_to(0.0, 0.0),
        curve_to(0.0, 0.0, 0.0, 0.0, 5.0, 5.0, 10.0, 0.0),
    ]);
    assert_eq!(segments, vec![line_or_curve(0.0, 0.0, 5.0, 5.0, 5.0, 5.0, 10.0, 0.0)]);
}

#[test]
fn curve_start_correction_within_tolerance() {
    let segments = path_to_segments(&vec![
        move_to(0.0, 0.0),
        curve_to(0.0, 0.0, 1.0e-11, 0.0, 5.0, 5.0, 10.0, 0.0),
    ]);
    assert_eq!(segments, vec![line_or_curve(0.0, 0.0, 5.0, 5.0, 5.0, 5.0, 10.0, 0.0)]);
}

#[test]
fn curve_end_correction_takes_start_control_point() {
    let segments = path_to_segments(&vec![
        move_to(0.0, 0.0),
        curve_to(0.0, 0.0, 1.0, 2.0, 10.0, 0.0, 10.0, 0.0),
    ]);
    assert_eq!(segments, vec![line_or_curve(0.0, 0.0, 1.0, 2.0, 1.0, 2.0, 10.0, 0.0)]);
}

#[test]
fn curve_both_corrections_share_far_control_point() {
    let segments = path_to_segments(&vec![
        move_to(0.0, 0.0),
        curve_to(0.0, 0.0, 0.0, 0.0, 7.0, 7.0, 7.0, 7.0),
    ]);
    assert_eq!(segments, vec![line_or_curve(0.0, 0.0, 7.0, 7.0, 7.0, 7.0, 7.0, 7.0)]);
}

#[test]
fn close_right_after_move_replaces_placeholder() {
    let segments = path_to_segments(&vec![move_to(0.0, 0.0), PathOp::ClosePath]);
    assert_eq!(segments, vec![line_or_curve(0.0, 0.0, 0.0, 0.0, 0.0, 0.0, 0.0, 0.0)]);
}

#[test]
fn close_after_drawn_content_changes_nothing() {
    let segments = path_to_segments(&vec![move_to(0.0, 0.0), line_to(5.0, 0.0), PathOp::ClosePath]);
    assert_eq!(segments, vec![line_or_curve(0.0, 0.0, 5.0, 0.0, 0.0, 0.0, 5.0, 0.0)]);
}

#[test]
fn leading_close_yields_empty_output() {
    let segments = path_to_segments(&vec![PathOp::ClosePath]);
    assert_eq!(segments, vec![]);
}

#[test]
fn start_points_track_current_point_and_subpath_start() {
    let ops = vec![move_to(1.0, 2.0), line_to(3.0, 4.0), PathOp::ClosePath, line_to(7.0, 8.0)];
    let points = start_points(&ops);
    assert_eq!(
        points,
        vec![
            (bits(0.0), bits(0.0)),
            (bits(1.0), bits(2.0)),
            (bits(3.0), bits(4.0)),
            (bits(1.0), bits(2.0)),
        ]
    );
}
