//! Tests for the runtime visibility query.

use fov2d::builder::{build_fov_nodes_q16, FovOctant16};
use fov2d::fov::{FovLines, FovRadius, Octant, QFactor};
use fov2d::fovcalc::{fov_calc, get_visible_tiles};
use fov2d::fovmap::FovMap16;
use fov2d::maps::{Coords, TileMap};

fn octant_o1() -> FovOctant16 {
    let fov_lines = FovLines::new(FovRadius::R16, QFactor::Single);
    let nodes = build_fov_nodes_q16(FovRadius::R16, &fov_lines, 50);
    FovOctant16::new(&nodes, FovRadius::R16, Octant::O1)
}

#[test]
fn fov_calc_unobstructed_sees_everything() {
    let octant = octant_o1();
    let blocked = vec![false; octant.len()];
    let tiles = fov_calc(&octant, &blocked, 16);
    // Nothing blocks, so every node in range is visible, in sweep order.
    assert_eq!(tiles.len(), octant.len());
    for (k, t) in tiles.iter().enumerate() {
        assert_eq!(t.id, k);
        assert!(t.body && !t.wall_n && !t.wall_w);
    }
}

#[test]
fn fov_calc_radius_truncates_sweep() {
    let octant = octant_o1();
    let blocked = vec![false; octant.len()];
    let tiles = fov_calc(&octant, &blocked, 2);
    // Radius 2 covers the origin plus primary distances 1 and 2: 6 nodes.
    assert_eq!(tiles.len(), 6);
}

#[test]
fn fov_calc_wall_shadows_axis() {
    let octant = octant_o1();
    // Block the axis tile at relative (2, 0): node index 3, after (0,0),
    // (1,0) and (1,1).
    let mut blocked = vec![false; octant.len()];
    blocked[3] = true;
    assert_eq!((octant.get(3).dpri, octant.get(3).dsec), (2, 0));
    let tiles = fov_calc(&octant, &blocked, 16);

    let visible: Vec<usize> = tiles.iter().map(|t| t.id).collect();
    // The wall itself is visible: it is judged before its own bits fold in.
    assert!(visible.contains(&3));
    // The axis tiles behind it are shadowed.
    for i in 0..octant.len() {
        let n = octant.get(i);
        if n.dsec == 0 && n.dpri >= 3 {
            assert!(!visible.contains(&i), "axis node at pri {} should be shadowed", n.dpri);
        }
    }
    // But the octant is not entirely dark.
    assert!(visible.len() > octant.len() / 2);
}

#[test]
fn fov_calc_adjacent_wall_darkens_octant() {
    let octant = octant_o1();
    // A wall directly on the first axis tile is crossed by every sightline
    // of the octant: everything farther is shadowed.
    let mut blocked = vec![false; octant.len()];
    blocked[1] = true;
    let tiles = fov_calc(&octant, &blocked, 16);
    let visible: Vec<usize> = tiles.iter().map(|t| t.id).collect();
    assert!(visible.contains(&0));
    assert!(visible.contains(&1));
    assert_eq!(visible.len(), 2);
}

#[test]
fn get_visible_tiles_open_room() {
    let fovmap = FovMap16::new(FovRadius::R16, QFactor::Single, 50).unwrap();
    let map = TileMap::new(9, 9);
    let origin = Coords::new(4, 4);
    let tiles = get_visible_tiles(&fovmap, &map, origin, 16);

    // Every tile of the small open room is reported by some octant.
    let mut seen = vec![false; 81];
    for t in &tiles {
        seen[t.id] = true;
    }
    assert!(seen.iter().all(|&s| s));
}

#[test]
fn get_visible_tiles_wall_blocks_east() {
    let fovmap = FovMap16::new(FovRadius::R16, QFactor::Single, 50).unwrap();
    let mut map = TileMap::new(9, 9);
    // A wall directly east of the origin.
    map.set_body_opaque(Coords::new(5, 4), true);
    let origin = Coords::new(4, 4);
    let tiles = get_visible_tiles(&fovmap, &map, origin, 16);

    let mut seen = vec![false; 81];
    for t in &tiles {
        seen[t.id] = true;
    }
    // The wall is seen; the tiles straight behind it are not.
    assert!(seen[4 * 9 + 5]);
    assert!(!seen[4 * 9 + 6]);
    assert!(!seen[4 * 9 + 7]);
    assert!(!seen[4 * 9 + 8]);
    // An unobstructed direction is unaffected.
    assert!(seen[4 * 9 + 3] && seen[4 * 9 + 2]);
    assert!(seen[0] && seen[80]);
}

#[test]
fn get_visible_tiles_respects_radius() {
    let fovmap = FovMap16::new(FovRadius::R16, QFactor::Single, 50).unwrap();
    let map = TileMap::new(9, 9);
    let origin = Coords::new(4, 4);
    let tiles = get_visible_tiles(&fovmap, &map, origin, 1);

    let mut seen = vec![false; 81];
    for t in &tiles {
        seen[t.id] = true;
    }
    // Radius 1 sees the origin and its direct ring only.
    for y in 0..9usize {
        for x in 0..9usize {
            let near = (x as i32 - 4).abs() <= 1 && (y as i32 - 4).abs() <= 1;
            assert_eq!(seen[y * 9 + x], near, "tile ({}, {})", x, y);
        }
    }
}

#[test]
fn tilemap_set_and_lookup() {
    let mut map = TileMap::new(4, 3);
    assert_eq!((map.width(), map.height()), (4, 3));
    assert!(!map.body_opaque(Coords::new(2, 1)));
    map.set_body_opaque(Coords::new(2, 1), true);
    assert!(map.body_opaque(Coords::new(2, 1)));
    assert!(!map.body_opaque(Coords::new(1, 2)));
    map.set_body_opaque(Coords::new(2, 1), false);
    assert!(!map.body_opaque(Coords::new(2, 1)));
    // Outside the grid everything is transparent.
    assert!(!map.body_opaque(Coords::new(-1, 0)));
    assert!(!map.body_opaque(Coords::new(4, 0)));
    assert!(!map.contains(Coords::new(0, 3)));
    assert_eq!(map.tile_id(Coords::new(2, 1)), 6);
}
