use roughgen::{Point, RgbaColor, RoughGenerator, RoughOptions, Vertex};

const ONE: i64 = 65536;

fn p(x: i64, y: i64) -> Point {
    Point { x: x * ONE, y: y * ONE }
}

fn black() -> RgbaColor {
    RgbaColor { r: 0, g: 0, b: 0, a: ONE }
}

#[test]
fn solid_mesh_counts_and_index_validity() {
    let g = RoughGenerator::new(Some(1));
    let points = vec![p(0, 0), p(10, 0), p(10, 10), p(0, 10)];
    let (vertices, indices) = g.points_to_vertices(&points, black(), ONE);
    assert_eq!(vertices.len(), 4 * 3);
    assert_eq!(indices.len(), 6 * 3);
    assert_eq!(indices.len() % 3, 0);
    for &ix in &indices {
        assert!((ix as usize) < vertices.len());
    }
}

#[test]
fn solid_mesh_exact_quad() {
    // A horizontal segment of length 100 with stroke width 1: the
    // perpendicular is (0, 0.5), giving a quad half a unit thick.
    let g = RoughGenerator::new(Some(1));
    let points = vec![p(0, 0), p(100, 0)];
    let (vertices, indices) = g.points_to_vertices(&points, black(), ONE);
    assert_eq!(vertices.len(), 4);
    let expect = [
        Point { x: 0, y: -ONE / 2 },
        Point { x: 0, y: ONE / 2 },
        Point { x: 100 * ONE, y: ONE / 2 },
        Point { x: 100 * ONE, y: -ONE / 2 },
    ];
    for (v, e) in vertices.iter().zip(expect.iter()) {
        assert_eq!(v.position, *e);
    }
    assert_eq!(indices, vec![0u16, 1, 2, 0, 2, 3]);
}

#[test]
fn solid_mesh_skips_degenerate_segments() {
    let g = RoughGenerator::new(Some(1));
    let points = vec![p(0, 0), p(0, 0), p(10, 0)];
    let (vertices, indices) = g.points_to_vertices(&points, black(), ONE);
    // Only one of the two segments has positive length.
    assert_eq!(vertices.len(), 4);
    assert_eq!(indices.len(), 6);
}

#[test]
fn solid_mesh_carries_color() {
    let g = RoughGenerator::new(Some(1));
    let tint = RgbaColor { r: ONE, g: ONE / 2, b: 0, a: ONE };
    let points = vec![p(0, 0), p(10, 0)];
    let (vertices, _) = g.points_to_vertices(&points, tint, ONE);
    for v in &vertices {
        let Vertex { color, .. } = *v;
        assert_eq!(color, tint);
    }
}

#[test]
fn dotted_mesh_counts_and_index_validity() {
    let g = RoughGenerator::new(Some(1));
    let points = vec![p(0, 0), p(8, 0), p(16, 0)];
    let (vertices, indices) = g.dotted_points_to_vertices(&points, black(), ONE);
    assert_eq!(vertices.len(), 13 * 3);
    assert_eq!(indices.len(), 72 * 3);
    assert_eq!(indices.len() % 3, 0);
    for &ix in &indices {
        assert!((ix as usize) < vertices.len());
    }
}

#[test]
fn dotted_mesh_centers_and_fan() {
    let g = RoughGenerator::new(Some(1));
    let points = vec![p(3, 4)];
    let (vertices, indices) = g.dotted_points_to_vertices(&points, black(), ONE);
    assert_eq!(vertices.len(), 13);
    assert_eq!(indices.len(), 72);
    // The first vertex of a pill is its dot center, untouched.
    assert_eq!(vertices[0].position, p(3, 4));
    // Every triangle of the fan starts at the center vertex.
    for tri in indices.chunks(3) {
        assert!(tri.contains(&0u16));
    }
}

#[test]
fn empty_inputs_give_empty_meshes() {
    let g = RoughGenerator::new(Some(1));
    let no_points: Vec<Point> = Vec::new();
    let (v1, i1) = g.points_to_vertices(&no_points, black(), ONE);
    assert!(v1.is_empty() && i1.is_empty());
    let (v2, i2) = g.dotted_points_to_vertices(&no_points, black(), ONE);
    assert!(v2.is_empty() && i2.is_empty());
    let lone = vec![p(1, 1)];
    let (v3, i3) = g.points_to_vertices(&lone, black(), ONE);
    assert!(v3.is_empty() && i3.is_empty());
}
