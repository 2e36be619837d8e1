use roughgen::{Point, RoughGenerator, RoughOptions};

const ONE: i64 = 65536;

fn p(x: i64, y: i64) -> Point {
    Point { x: x * ONE, y: y * ONE }
}

#[test]
fn line_has_eleven_points() {
    let mut g = RoughGenerator::new(Some(7));
    let opts = RoughOptions::default();
    let line = g.rough_line(p(0, 0), p(100, 0), &opts);
    assert_eq!(line.len(), 11);
    let line2 = g.rough_line(p(3, 4), p(-50, 20), &opts);
    assert_eq!(line2.len(), 11);
    let degenerate = g.rough_line(p(5, 5), p(5, 5), &opts);
    assert_eq!(degenerate.len(), 11);
}

#[test]
fn line_deterministic_per_seed() {
    let opts = RoughOptions::default();
    let mut g1 = RoughGenerator::new(Some(1));
    let a = g1.rough_line(p(0, 0), p(100, 0), &opts);
    let mut g2 = RoughGenerator::new(Some(1));
    let b = g2.rough_line(p(0, 0), p(100, 0), &opts);
    assert!(!a.is_empty());
    assert_eq!(a, b);

    let mut g3 = RoughGenerator::new(Some(2));
    let c = g3.rough_line(p(0, 0), p(100, 0), &opts);
    assert_ne!(a, c);
}

#[test]
fn line_endpoints_near_inputs() {
    // Default style: max_randomness_offset is 2.0 and the length of
    // 100 keeps the gain at 1.0, so endpoint jitter stays within 2.0.
    let opts = RoughOptions::default();
    let mut g = RoughGenerator::new(Some(1));
    let line = g.rough_line(p(0, 0), p(100, 0), &opts);
    let first = line[0];
    let last = line[10];
    let bound = 2 * ONE;
    assert!(first.x.abs() <= bound && first.y.abs() <= bound);
    assert!((last.x - 100 * ONE).abs() <= bound && last.y.abs() <= bound);
}

#[test]
fn line_stream_advances_between_calls() {
    // Two calls on one generator draw from different positions of the
    // seeded stream, so they must not repeat each other.
    let opts = RoughOptions::default();
    let mut g = RoughGenerator::new(Some(5));
    let a = g.rough_line(p(0, 0), p(100, 0), &opts);
    let b = g.rough_line(p(0, 0), p(100, 0), &opts);
    assert_ne!(a, b);
}

#[test]
fn preserved_vertices_are_exact() {
    let mut opts = RoughOptions::default();
    opts.preserve_vertices = true;
    let mut g = RoughGenerator::new(Some(9));
    let line = g.rough_line(p(0, 0), p(37, -12), &opts);
    assert_eq!(line[0], p(0, 0));
    assert_eq!(line[10], p(37, -12));
}

#[test]
fn missing_seed_falls_back_to_default_seed() {
    let opts = RoughOptions::default();
    let mut g1 = RoughGenerator::new(None);
    let mut g2 = RoughGenerator::new(Some(42));
    let a = g1.rough_line(p(0, 0), p(60, 30), &opts);
    let b = g2.rough_line(p(0, 0), p(60, 30), &opts);
    assert_eq!(a, b);
}

#[test]
fn dotted_line_min_one_dot() {
    // Length 6 with stroke width 1: spacing is 8, floor(6/8) = 0, yet
    // the segment is above the 5-unit floor and must keep one dot.
    let mut opts = RoughOptions::default();
    opts.stroke_width = ONE;
    let mut g = RoughGenerator::new(Some(3));
    let dots = g.rough_dotted_line(p(0, 0), p(6, 0), &opts);
    assert!(dots.len() >= 1);
}

#[test]
fn dotted_line_counts() {
    let mut opts = RoughOptions::default();
    opts.stroke_width = ONE;
    let mut g = RoughGenerator::new(Some(3));
    // Spacing max(4, 8) = 8: a segment of 80 gets exactly 10 dots.
    let dots = g.rough_dotted_line(p(0, 0), p(80, 0), &opts);
    assert_eq!(dots.len(), 10);
    // Under one unit of length the bare endpoints come back.
    let tiny = g.rough_dotted_line(p(0, 0), Point { x: ONE / 2, y: 0 }, &opts);
    assert_eq!(tiny, vec![p(0, 0), Point { x: ONE / 2, y: 0 }]);
    // Between one and five units there is nothing to dot.
    let short = g.rough_dotted_line(p(0, 0), p(3, 0), &opts);
    assert!(short.is_empty());
}

#[test]
fn dotted_line_delegation() {
    let mut opts = RoughOptions::default();
    opts.dotted = true;
    let mut g1 = RoughGenerator::new(Some(11));
    let via_line = g1.rough_line(p(0, 0), p(80, 0), &opts);
    let mut g2 = RoughGenerator::new(Some(11));
    let direct = g2.rough_dotted_line(p(0, 0), p(80, 0), &opts);
    assert_eq!(via_line, direct);
}

#[test]
fn dotted_lines_passthrough_when_not_dotted() {
    let opts = RoughOptions::default();
    let mut g = RoughGenerator::new(Some(4));
    let lines = vec![vec![p(0, 0), p(10, 0)], vec![p(0, 5), p(10, 5)]];
    let out = g.rough_dotted_lines(lines.clone(), &opts);
    assert_eq!(out, lines);
}

#[test]
fn dotted_lines_resegment() {
    let mut opts = RoughOptions::default();
    opts.dotted = true;
    opts.stroke_width = ONE;
    let mut g = RoughGenerator::new(Some(4));
    let lines = vec![vec![p(0, 0), p(80, 0), p(80, 80)]];
    let out = g.rough_dotted_lines(lines, &opts);
    // Two source segments of length 80 give two dot rows of 10 dots.
    assert_eq!(out.len(), 2);
    assert_eq!(out[0].len(), 10);
    assert_eq!(out[1].len(), 10);
}

#[test]
fn bezier_endpoint_is_last_control_point() {
    let g = RoughGenerator::new(Some(1));
    let pts = g.bezier_curve(p(0, 0), p(10, 20), p(20, -20), p(30, 0), 10);
    assert_eq!(pts.len(), 10);
    assert_eq!(pts[9], p(30, 0));
}

#[test]
fn curve_through_points_counts() {
    let opts = RoughOptions::default();
    let mut g = RoughGenerator::new(Some(1));
    let single = g.curve_through_points(vec![p(1, 1)], false, &opts);
    assert_eq!(single, vec![p(1, 1)]);
    let open_curve = g.curve_through_points(vec![p(0, 0), p(10, 0), p(10, 10)], false, &opts);
    // One anchor plus eight samples for each of the three windows.
    assert_eq!(open_curve.len(), 25);
    assert_eq!(open_curve[0], p(0, 0));
    let closed = g.curve_through_points(vec![p(0, 0), p(10, 0), p(10, 10)], true, &opts);
    assert_eq!(closed.len(), 26);
    assert_eq!(closed[25], p(0, 0));
}
