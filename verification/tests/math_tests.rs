//! Tests for the fixed-point geometric primitives.

use fov2d::math::{Line, Point, Vector, GeomError, SCALE};
use fov2d::maps::Coords;

#[test]
fn vectors() {
    let v1 = Vector::new(300, 400);
    assert_eq!(v1.magnitude(), 500);
}

#[test]
fn vector_normalize_scales_to_one_tile() {
    let mut v = Vector::new(300, 400);
    assert_eq!(v.normalize(), Ok(()));
    // Unit vector of (3, 4) is (0.6, 0.8): scaled to one tile, (60, 80).
    assert_eq!(v, Vector::new(60, 80));
}

#[test]
fn vector_normalize_zero_is_degenerate() {
    let mut v = Vector::new(0, 0);
    assert_eq!(v.normalize(), Err(GeomError::DegenerateVector));
    assert_eq!(v, Vector::new(0, 0));
    assert!(Vector::normalized(0, 0).is_err());
    assert_eq!(Vector::normalized(300, 400), Ok(Vector::new(60, 80)));
}

#[test]
fn vector_plus_minus() {
    let a = Vector::new(100, -50);
    let b = Vector::new(25, 75);
    assert_eq!(a.plus(b), Vector::new(125, 25));
    assert_eq!(a.minus(b), Vector::new(75, -125));
}

#[test]
fn point_distance_and_shift() {
    let p = Point::new(0, 0);
    assert_eq!(p.distance(Point::new(300, 400)), 500);
    // Floor behavior: sqrt(200) = 14.14... rounds down.
    assert_eq!(p.distance(Point::new(10, 10)), 14);
    let q = p.shifted_by(Vector::new(70, -30));
    assert_eq!(q, Point::new(70, -30));
    let mut r = Point::new(5, 5);
    r.shift_by(Vector::new(-10, 10));
    assert_eq!(r, Point::new(-5, 15));
}

#[test]
fn point_to_coords() {
    // Tile centers at n.5, corners at whole tiles; flooring picks the tile.
    let actual: [Coords; 5] = [
        Point::new(50, 50).into(),
        Point::new(-110, 110).into(),
        Point::new(110, 110).into(),
        Point::new(110, -110).into(),
        Point::new(-110, -110).into(),
    ];
    let expected = [
        Coords::new(0, 0),
        Coords::new(-2, 1),
        Coords::new(1, 1),
        Coords::new(1, -2),
        Coords::new(-2, -2),
    ];
    assert_eq!(actual, expected);
}

#[test]
fn line_length_is_floored() {
    assert_eq!(Line::new(0, 0, 300, 400).length(), 500);
    assert_eq!(Line::new(0, 0, 0, 101).length(), 101);
    assert_eq!(Line::new(0, 0, 10, 10).length(), 14);
}

#[test]
fn line_shifted_by_moves_both_endpoints() {
    let l = Line::new(0, 0, SCALE, 0).shifted_by(2 * SCALE, 3 * SCALE);
    assert_eq!(l, Line::new(200, 300, 300, 300));
}

#[test]
fn intersects_is_symmetric_on_samples() {
    let cases = [
        (Line::new(0, 0, 100, 100), Line::new(0, 100, 100, 0)),
        (Line::new(0, 0, 100, 100), Line::new(90, 0, 200, 10)),
        (Line::new(50, 50, 1650, 101), Line::new(800, 0, 800, 100)),
        (Line::new(0, 0, 100, 0), Line::new(0, 1, 100, 1)),
    ];
    for (a, b) in cases {
        assert_eq!(a.intersects(b), b.intersects(a));
    }
}

#[test]
fn collinear_segments_never_intersect() {
    // Collinear, non-overlapping: the parallel (zero denominator) path.
    let a = Line::new(0, 0, 100, 0);
    let b = Line::new(200, 0, 300, 0);
    assert!(!a.intersects(b));
    assert_eq!(a.intersection(b), None);
    // Even collinear overlapping segments report no intersection.
    let c = Line::new(50, 0, 150, 0);
    assert!(!a.intersects(c));
    // Parallel but not collinear.
    let d = Line::new(0, 10, 100, 10);
    assert!(!a.intersects(d));
}

#[test]
fn touching_endpoints_count_as_intersecting() {
    // Closed-interval semantics: a segment ending exactly on another
    // segment still intersects it.
    let a = Line::new(0, 0, 100, 0);
    let b = Line::new(100, 0, 100, 100);
    assert!(a.intersects(b));
    let c = Line::new(50, 0, 50, 100);
    assert!(a.intersects(c));
}

#[test]
fn intersection_point_is_exact() {
    // Diagonals of a tile cross at its center.
    let a = Line::new(0, 0, 100, 100);
    let b = Line::new(0, 100, 100, 0);
    let p = a.intersection(b).unwrap();
    assert!(p.den > 0);
    assert_eq!(p.x_num, 50 * p.den);
    assert_eq!(p.y_num, 50 * p.den);
}
