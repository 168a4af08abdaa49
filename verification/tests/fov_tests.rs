//! Tests for FOV line generation and the octant transform tables.

use fov2d::fov::{get_fov_lines, wall_n_line, wall_w_line, FovLines, FovRadius, Octant, QFactor};
use fov2d::math::Line;

// FOV line sanity check: proper number of lines.
#[test]
fn fov_line_count() {
    let suite = [
        get_fov_lines(FovRadius::R16, QFactor::Single),
        get_fov_lines(FovRadius::R16, QFactor::Double),
        get_fov_lines(FovRadius::R32, QFactor::Single),
        get_fov_lines(FovRadius::R32, QFactor::Double),
        get_fov_lines(FovRadius::R64, QFactor::Single),
        get_fov_lines(FovRadius::R64, QFactor::Double),
        get_fov_lines(FovRadius::R128, QFactor::Single),
        get_fov_lines(FovRadius::R128, QFactor::Double),
    ];
    let actual: Vec<_> = suite.iter().map(|lines| lines.len()).collect();

    let expected = [16, 32, 32, 64, 64, 128, 128, 256];

    assert_eq!(actual, expected);
}

#[test]
fn fov_line_count_r8() {
    assert_eq!(get_fov_lines(FovRadius::R8, QFactor::Single).len(), 8);
    assert_eq!(get_fov_lines(FovRadius::R8, QFactor::Double).len(), 16);
}

// FOV node line sanity check: lines in some octant pairs should be identical.
#[test]
fn fov_node_line_match() {
    let north_pairs = [
        (wall_n_line(Octant::O1), wall_n_line(Octant::O4)),
        (wall_n_line(Octant::O2), wall_n_line(Octant::O3)),
        (wall_n_line(Octant::O5), wall_n_line(Octant::O8)),
        (wall_n_line(Octant::O6), wall_n_line(Octant::O7)),
    ];
    let west_pairs = [
        (wall_w_line(Octant::O1), wall_w_line(Octant::O8)),
        (wall_w_line(Octant::O2), wall_w_line(Octant::O7)),
        (wall_w_line(Octant::O3), wall_w_line(Octant::O6)),
        (wall_w_line(Octant::O4), wall_w_line(Octant::O5)),
    ];

    for pair in north_pairs.iter() {
        assert_eq!(pair.0, pair.1);
    }

    for pair in west_pairs.iter() {
        assert_eq!(pair.0, pair.1);
    }
}

#[test]
fn fov_lines_start_at_tile_center() {
    // All sightlines radiate from the origin tile's center (0.5, 0.5),
    // toward the far edge at primary distance = radius.
    let fl = FovLines::new(FovRadius::R16, QFactor::Single);
    assert_eq!(fl.len(), 16);
    for i in 0..fl.len() {
        let l = fl.get(i);
        assert_eq!((l.x1, l.y1), (50, 50));
        assert_eq!(l.x2, 1650);
    }
    assert_eq!(fl.get(0), Line::new(50, 50, 1650, 101));
    assert_eq!(fl.get(15), Line::new(50, 50, 1650, 1601));
}

#[test]
fn fov_lines_secondary_offsets_increase() {
    // The sightline order is the bit order: strictly increasing secondary
    // offsets, for both quantizations.
    for q in [QFactor::Single, QFactor::Double] {
        let fl = FovLines::new(FovRadius::R8, q);
        for i in 1..fl.len() {
            assert!(fl.get(i - 1).y2 < fl.get(i).y2);
        }
    }
    let fd = FovLines::new(FovRadius::R8, QFactor::Double);
    assert_eq!(fd.get(0), Line::new(50, 50, 850, 75));
    assert_eq!(fd.get(1), Line::new(50, 50, 850, 125));
    assert_eq!(fd.get(2), Line::new(50, 50, 850, 175));
    assert_eq!(fd.get(15), Line::new(50, 50, 850, 825));
}

#[test]
fn octant_transform_round_trip() {
    let octants = [
        Octant::O1,
        Octant::O2,
        Octant::O3,
        Octant::O4,
        Octant::O5,
        Octant::O6,
        Octant::O7,
        Octant::O8,
    ];
    for o in octants {
        for (dp, ds) in [(0u16, 0u16), (5, 3), (16, 0), (7, 7)] {
            let (dx, dy) = o.dpds_to_dxdy(dp, ds);
            assert_eq!(o.dxdy_to_dpds(dx, dy), (dp, ds));
        }
    }
    // The direction table itself, on one octant pair.
    assert_eq!(Octant::O1.dpds_to_dxdy(5, 3), (5, 3));
    assert_eq!(Octant::O6.dpds_to_dxdy(5, 3), (-3, -5));
}

#[test]
fn octant_deltas_match_quadrants() {
    let d3 = Octant::O3.deltas_i();
    assert_eq!((d3.dx, d3.dy), (-1, 1));
    let d8 = Octant::O8.deltas_i();
    assert_eq!((d8.dx, d8.dy), (1, -1));
}

// End-to-end: the nearest sightline of the R8 set crosses the far probe
// segment from (8.0, 0.0) to (8.0, 1.0), inside both segments' bounds.
#[test]
fn fov_line_crosses_far_tile_edge() {
    let fl = FovLines::new(FovRadius::R8, QFactor::Single);
    assert_eq!(fl.len(), 8);
    let line0 = fl.get(0);
    let probe = Line::new(800, 0, 800, 100);

    let p = line0.intersection(probe).expect("nearest sightline must cross the probe");
    assert!(p.den > 0);
    // Exact rational crossing: x = 8.0 tiles, y = 0.978125 tiles.
    assert_eq!(p.x_num, 800 * p.den);
    assert_eq!((p.x_num, p.y_num, p.den), (64_000_000, 7_825_000, 80_000));
    // Within the probe's bounds...
    assert!(0 <= p.y_num && p.y_num <= 100 * p.den);
    // ...and within the sightline's own bounds.
    assert!(50 * p.den <= p.x_num && p.x_num <= 850 * p.den);
    assert!(50 * p.den <= p.y_num && p.y_num <= 101 * p.den);
}
