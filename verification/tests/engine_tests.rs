use delaunay_core::engine::TriangulationEngine;
use delaunay_core::point::Point;
use delaunay_core::triangle::Triangle;

fn pt(x: f64, y: f64) -> Point {
    Point::new(x.to_bits(), y.to_bits()).unwrap()
}

fn three_points() -> Vec<Point> {
    vec![pt(0.0, 0.0), pt(10.0, 0.0), pt(0.0, 10.0)]
}

#[test]
fn compute_fewer_than_three_points_is_empty() {
    let points = vec![pt(0.0, 0.0), pt(10.0, 0.0)];
    // The raw result is not even consulted.
    let raw = vec![0, 1, 2];
    let result = TriangulationEngine::compute(&points, &raw);
    assert!(result.is_empty());

    let none: Vec<Point> = Vec::new();
    assert!(TriangulationEngine::compute(&none, &raw).is_empty());
}

#[test]
fn compute_drops_out_of_bounds_triples() {
    let points = three_points();
    // Index 3 equals the point count: the whole triple is discarded.
    let raw = vec![0, 1, 3];
    let result = TriangulationEngine::compute(&points, &raw);
    assert!(result.is_empty());

    // A bad triple among good ones only loses itself.
    let raw = vec![0, 1, 99, 0, 1, 2];
    let result = TriangulationEngine::compute(&points, &raw);
    assert_eq!(result.len(), 1);
}

#[test]
fn compute_drops_incomplete_trailing_group() {
    let points = three_points();
    let raw = vec![0, 1];
    assert!(TriangulationEngine::compute(&points, &raw).is_empty());

    let raw = vec![0, 1, 2, 2, 1];
    let result = TriangulationEngine::compute(&points, &raw);
    assert_eq!(result.len(), 1);
}

#[test]
fn compute_deduplicates_repeated_triangles() {
    let points = three_points();
    // The same triangle twice, the second time in another vertex order.
    let raw = vec![0, 1, 2, 2, 0, 1];
    let result = TriangulationEngine::compute(&points, &raw);
    assert_eq!(result.len(), 1);
    let expected = Triangle::new(points[0], points[1], points[2]);
    assert!(result[0].equals(&expected));
}

#[test]
fn compute_keeps_distinct_triangles_in_first_seen_order() {
    let points = vec![pt(0.0, 0.0), pt(10.0, 0.0), pt(0.0, 10.0), pt(10.0, 10.0)];
    let raw = vec![0, 1, 2, 1, 3, 2, 2, 1, 0];
    let result = TriangulationEngine::compute(&points, &raw);
    assert_eq!(result.len(), 2);
    assert!(result[0].equals(&Triangle::new(points[0], points[1], points[2])));
    assert!(result[1].equals(&Triangle::new(points[1], points[3], points[2])));
}

#[test]
fn compute_tolerates_duplicate_points() {
    let points = vec![pt(0.0, 0.0), pt(0.0, 0.0), pt(1.0, 1.0), pt(2.0, 0.0)];
    // Two triples over bit-identical points encode the same triangle.
    let raw = vec![0, 2, 3, 1, 2, 3];
    let result = TriangulationEngine::compute(&points, &raw);
    assert_eq!(result.len(), 1);
}
