use roughgen::{ArrowHead, Point, RoughGenerator, RoughOptions, ShapeSpec};

const ONE: i64 = 65536;

fn p(x: i64, y: i64) -> Point {
    Point { x: x * ONE, y: y * ONE }
}

#[test]
fn rectangle_multi_stroke_doubling() {
    let opts = RoughOptions::default();
    let mut g = RoughGenerator::new(Some(1));
    let lines = g.rough_rectangle(p(0, 0), p(50, 30), &opts);
    assert_eq!(lines.len(), 8);

    let mut single = RoughOptions::default();
    single.disable_multi_stroke = true;
    let mut g2 = RoughGenerator::new(Some(1));
    let lines2 = g2.rough_rectangle(p(0, 0), p(50, 30), &single);
    assert_eq!(lines2.len(), 4);
}

#[test]
fn rectangle_edges_start_near_corners() {
    let mut opts = RoughOptions::default();
    opts.disable_multi_stroke = true;
    opts.dotted = false;
    let mut g = RoughGenerator::new(Some(1));
    let lines = g.rough_rectangle(p(0, 0), p(50, 30), &opts);
    assert_eq!(lines.len(), 4);
    let corners = [p(0, 0), p(50, 0), p(50, 30), p(0, 30)];
    let bound = 2 * ONE;
    for (line, corner) in lines.iter().zip(corners.iter()) {
        let first = line[0];
        assert!((first.x - corner.x).abs() <= bound);
        assert!((first.y - corner.y).abs() <= bound);
    }
}

#[test]
fn rectangle_deterministic_per_seed() {
    let opts = RoughOptions::default();
    let mut g1 = RoughGenerator::new(Some(8));
    let mut g2 = RoughGenerator::new(Some(8));
    assert_eq!(
        g1.rough_rectangle(p(0, 0), p(50, 30), &opts),
        g2.rough_rectangle(p(0, 0), p(50, 30), &opts)
    );
}

#[test]
fn diamond_counts_and_corners() {
    let mut opts = RoughOptions::default();
    opts.disable_multi_stroke = true;
    opts.preserve_vertices = true;
    let mut g = RoughGenerator::new(Some(2));
    let lines = g.rough_diamond(p(0, 0), p(40, 20), &opts);
    assert_eq!(lines.len(), 4);
    // With preserved vertices the edges start exactly at the diamond
    // corners: the rectangle's edge midpoints.
    assert_eq!(lines[0][0], p(20, 0));
    assert_eq!(lines[1][0], p(40, 10));
    assert_eq!(lines[2][0], p(20, 20));
    assert_eq!(lines[3][0], p(0, 10));
}

#[test]
fn ellipse_stroke_counts() {
    let opts = RoughOptions::default();
    let mut g = RoughGenerator::new(Some(1));
    let lines = g.rough_ellipse(p(0, 0), 40 * ONE, 30 * ONE, &opts);
    assert_eq!(lines.len(), 2);
    for line in &lines {
        assert!(line.len() >= 3);
    }

    let mut single = RoughOptions::default();
    single.disable_multi_stroke = true;
    let mut g2 = RoughGenerator::new(Some(1));
    let lines2 = g2.rough_ellipse(p(0, 0), 40 * ONE, 30 * ONE, &single);
    assert_eq!(lines2.len(), 1);
}

#[test]
fn ellipse_clean_path_at_zero_roughness() {
    let mut opts = RoughOptions::default();
    opts.roughness = 0;
    opts.disable_multi_stroke = true;
    let mut g = RoughGenerator::new(Some(1));
    let lines = g.rough_ellipse(p(0, 0), 40 * ONE, 30 * ONE, &opts);
    assert_eq!(lines.len(), 1);
    // The clean walk samples a full turn plus the closing step.
    assert!(lines[0].len() >= 16);
    // Zero roughness means no jitter: the walk is on the exact radii,
    // so the first point (angle just below zero) sits near (rx, 0).
    let first = lines[0][0];
    assert!((first.x - 20 * ONE).abs() <= ONE);
}

#[test]
fn arrow_line_counts() {
    let opts = RoughOptions::default();
    let mut g = RoughGenerator::new(Some(1));
    let lines = g.rough_arrow(p(0, 0), p(100, 0), &opts);
    assert_eq!(lines.len(), 6);
    for line in &lines {
        assert_eq!(line.len(), 11);
    }

    let mut single = RoughOptions::default();
    single.disable_multi_stroke = true;
    let mut g2 = RoughGenerator::new(Some(1));
    let lines2 = g2.rough_arrow(p(0, 0), p(100, 0), &single);
    assert_eq!(lines2.len(), 3);
}

#[test]
fn zero_length_arrow_has_no_head() {
    let mut opts = RoughOptions::default();
    opts.disable_multi_stroke = true;
    let mut g = RoughGenerator::new(Some(1));
    let lines = g.rough_arrow(p(5, 5), p(5, 5), &opts);
    assert_eq!(lines.len(), 1);
}

#[test]
fn solid_head_arrow() {
    let opts = RoughOptions::default();
    let mut g = RoughGenerator::new(Some(1));
    let (shaft, head) = g.rough_arrow_with_solid_head(p(0, 0), p(100, 0), &opts);
    assert_eq!(shaft.len(), 2);
    let head: ArrowHead = head.expect("an arrow of positive length has a head");
    assert_eq!(head.tip, p(100, 0));
    // The head edges point backwards from the tip.
    assert!(head.left.x < head.tip.x);
    assert!(head.right.x < head.tip.x);

    let (_, no_head) = g.rough_arrow_with_solid_head(p(1, 1), p(1, 1), &opts);
    assert!(no_head.is_none());
}

#[test]
fn dotted_arrow_rows() {
    let mut opts = RoughOptions::default();
    opts.stroke_width = ONE;
    let mut g = RoughGenerator::new(Some(1));
    let lines = g.rough_dotted_arrow(p(0, 0), p(100, 0), &opts);
    // A dotted shaft plus one dense dot row per head edge.
    assert_eq!(lines.len(), 3);
    assert!(lines[0].len() >= 2);
    assert!(lines[1].len() >= 2);
    assert!(lines[2].len() >= 2);

    let mut g2 = RoughGenerator::new(Some(1));
    let stub = g2.rough_dotted_arrow(p(0, 0), Point { x: ONE / 2, y: 0 }, &opts);
    assert_eq!(stub.len(), 1);
}

#[test]
fn synthesize_dispatch() {
    let opts = RoughOptions::default();
    let mut g = RoughGenerator::new(Some(1));
    let (lines, head) = g.synthesize(&ShapeSpec::Line { start: p(0, 0), end: p(100, 0) }, &opts);
    assert_eq!(lines.len(), 1);
    assert_eq!(lines[0].len(), 11);
    assert!(head.is_none());

    let mut g2 = RoughGenerator::new(Some(1));
    let (rect, _) = g2.synthesize(
        &ShapeSpec::Rectangle { position: p(0, 0), size: p(50, 30) },
        &opts,
    );
    assert_eq!(rect.len(), 8);

    let mut g3 = RoughGenerator::new(Some(1));
    let (_, solid) = g3.synthesize(
        &ShapeSpec::ArrowSolidHead { start: p(0, 0), end: p(100, 0) },
        &opts,
    );
    assert!(solid.is_some());
}

#[test]
fn synthesize_matches_direct_call() {
    let opts = RoughOptions::default();
    let mut g1 = RoughGenerator::new(Some(17));
    let (via_entry, _) = g1.synthesize(
        &ShapeSpec::Ellipse { center: p(0, 0), width: 40 * ONE, height: 30 * ONE },
        &opts,
    );
    let mut g2 = RoughGenerator::new(Some(17));
    let direct = g2.rough_ellipse(p(0, 0), 40 * ONE, 30 * ONE, &opts);
    assert_eq!(via_entry, direct);
}

#[test]
fn dotted_rectangle_yields_dot_rows() {
    let mut opts = RoughOptions::default();
    opts.dotted = true;
    opts.disable_multi_stroke = true;
    opts.stroke_width = ONE;
    let mut g = RoughGenerator::new(Some(6));
    let rows = g.rough_rectangle(p(0, 0), p(80, 80), &opts);
    // Every emitted row holds at least one dot center, and the edges
    // of an 80 by 80 rectangle leave plenty of rows to re-dot.
    assert!(rows.len() >= 4);
    for row in &rows {
        assert!(!row.is_empty());
    }
}
