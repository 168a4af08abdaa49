//! Tests for the Simple and Standard FOV node builders and map assembly.

use fov2d::builder::{build_fov_nodes_q16, FovOctant16};
use fov2d::fov::{FovLines, FovRadius, Octant, QFactor};
use fov2d::fovmap::{FovError, FovMap16};
use fov2d::standard::build_fov_nodes_std_q16;

// FOV Node sanity check:
// - All FOV lines should pass through the 0th FOV Node.
// - For Single Q-Factor:
//   - FOV Node at `(dpri, dsec)` = `(rFOV, 0)` has one FOV bit set.
//   - FOV Nodes at `(dpri, dsec)` = `(rFOV, >0)` have two FOV bits set.
#[test]
fn fov_octant_bits_set_q16() {
    let rfov = FovRadius::R16;
    let qsingle = QFactor::Single;
    let fov_lines_16 = FovLines::new(rfov, qsingle);
    let fov_octant_16 = build_fov_nodes_q16(FovRadius::R16, &fov_lines_16, 50);

    for fov_node in fov_octant_16.iter() {
        if fov_node.dpri == 16 {
            let body_ct = fov_node.body.count_ones();
            if fov_node.dsec == 0 {
                assert_eq!(body_ct, 1);
            } else {
                assert!(body_ct > 1);
            }
        }
    }
}

#[test]
fn fov_nodes_bits_set_q16() {
    let rfov = FovRadius::R16;
    let qsingle = QFactor::Single;
    let fov_lines_16s = FovLines::new(rfov, qsingle);
    let fov_octant_16s = build_fov_nodes_q16(FovRadius::R16, &fov_lines_16s, 50);

    for fov_node in fov_octant_16s.iter() {
        if fov_node.dpri == 16 {
            let body_ct = fov_node.body.count_ones();
            if fov_node.dsec == 0 {
                assert_eq!(body_ct, 1);
            } else {
                assert!(body_ct > 1);
            }
        }
    }
}

// End-to-end: circular culling trims the full triangular sweep, but not by
// much at a half-tile adjustment.
#[test]
fn fov_node_count_is_culled() {
    let fov_lines = FovLines::new(FovRadius::R16, QFactor::Single);
    let nodes = build_fov_nodes_q16(FovRadius::R16, &fov_lines, 50);
    // Full triangular count including the origin node would be 153; the
    // half-tile circular adjustment culls the outermost corners down to 122.
    assert!(nodes.len() < 152);
    assert!(nodes.len() > 120);
    assert_eq!(nodes.len(), 122);
}

#[test]
fn fov_node_origin_all_bits_set() {
    let fov_lines = FovLines::new(FovRadius::R16, QFactor::Single);
    let nodes = build_fov_nodes_q16(FovRadius::R16, &fov_lines, 50);
    assert_eq!(nodes[0].body, u16::MAX);
    assert_eq!((nodes[0].dpri, nodes[0].dsec), (0, 0));
}

#[test]
fn fov_node_sweep_order() {
    let fov_lines = FovLines::new(FovRadius::R16, QFactor::Single);
    let nodes = build_fov_nodes_q16(FovRadius::R16, &fov_lines, 50);
    for w in nodes.windows(2) {
        let earlier = &w[0];
        let later = &w[1];
        assert!(
            earlier.dpri < later.dpri || (earlier.dpri == later.dpri && earlier.dsec < later.dsec)
        );
    }
}

#[test]
fn fov_octant_node_indexes() {
    let fov_lines = FovLines::new(FovRadius::R16, QFactor::Single);
    let nodes = build_fov_nodes_q16(FovRadius::R16, &fov_lines, 50);
    let octant = FovOctant16::new(&nodes, FovRadius::R16, Octant::O1);

    assert_eq!(octant.len(), nodes.len());
    // Radius 0 covers exactly the origin node.
    assert_eq!(octant.max_node_index(0), 0);
    // The full radius covers every node.
    assert_eq!(octant.max_node_index(16), nodes.len() - 1);
    // Truncation indexes grow with the radius, and each cutoff node sits at
    // the radius' primary distance.
    for r in 1..=16 {
        let i = octant.max_node_index(r);
        assert!(i > octant.max_node_index(r - 1));
        assert_eq!(octant.get(i).dpri as usize, r);
    }
    // An iterator walk sees the same nodes.
    let collected: Vec<_> = octant.iter().cloned().collect();
    assert_eq!(collected, nodes);
}

#[test]
fn fov_node_exact_masks() {
    let fov_lines = FovLines::new(FovRadius::R16, QFactor::Single);
    let nodes = build_fov_nodes_q16(FovRadius::R16, &fov_lines, 50);

    let mask_at = |p: u8, s: u8| {
        nodes
            .iter()
            .find(|n| n.dpri == p && n.dsec == s)
            .expect("node should survive culling")
            .body
    };
    // Every sightline passes through the first on-axis tile.
    assert_eq!(mask_at(1, 0), 0xFFFF);
    // Sightlines 0..=4 pass through the second on-axis tile.
    assert_eq!(mask_at(2, 0), 0x001F);
    // Only sightline 0 reaches the outermost on-axis tile.
    assert_eq!(mask_at(16, 0), 0x0001);
}

#[test]
fn std_node_exact_wall_mask() {
    let fov_lines = FovLines::new(FovRadius::R16, QFactor::Single);
    let nodes = build_fov_nodes_std_q16(FovRadius::R16, &fov_lines, 50, Octant::O1);

    let node = nodes.iter().find(|n| n.dpri == 1 && n.dsec == 0).unwrap();
    // The first on-axis tile's north wall (from (1,1) to (2,1) in pri/sec
    // space) is crossed by sightlines 5..=15.
    assert_eq!(node.wall_n, 0xFFE0);
    // Its west wall (from (1,0) to (1,1)) is crossed by every sightline.
    assert_eq!(node.wall_w, 0xFFFF);
}

#[test]
fn fov_map_accepts_only_its_width() {
    assert!(FovMap16::new(FovRadius::R16, QFactor::Single, 50).is_ok());
    assert_eq!(
        FovMap16::new(FovRadius::R32, QFactor::Single, 50).err(),
        Some(FovError::ConfigMismatch)
    );
    assert_eq!(
        FovMap16::new(FovRadius::R16, QFactor::Double, 50).err(),
        Some(FovError::ConfigMismatch)
    );
    assert_eq!(
        FovMap16::new(FovRadius::R8, QFactor::Single, 50).err(),
        Some(FovError::ConfigMismatch)
    );
}

#[test]
fn fov_map_capacity_counts_all_octants() {
    let map = FovMap16::new(FovRadius::R16, QFactor::Single, 50).unwrap();
    assert_eq!(map.capacity(), map.octant_1.len() * 8);
    assert_eq!(map.octant_1.len(), map.octant_5.len());
}

#[test]
fn std_nodes_share_body_masks_with_simple() {
    let fov_lines = FovLines::new(FovRadius::R16, QFactor::Single);
    let simple = build_fov_nodes_q16(FovRadius::R16, &fov_lines, 50);
    let std_o1 = build_fov_nodes_std_q16(FovRadius::R16, &fov_lines, 50, Octant::O1);

    assert_eq!(simple.len(), std_o1.len());
    for (a, b) in simple.iter().zip(std_o1.iter()).skip(1) {
        assert_eq!((a.dpri, a.dsec), (b.dpri, b.dsec));
        assert_eq!(a.body, b.body);
    }
}

#[test]
fn std_nodes_wall_masks_match_octant_pairs() {
    // Octants sharing a wall-edge table get identical wall masks.
    let fov_lines = FovLines::new(FovRadius::R16, QFactor::Single);
    let o1 = build_fov_nodes_std_q16(FovRadius::R16, &fov_lines, 50, Octant::O1);
    let o4 = build_fov_nodes_std_q16(FovRadius::R16, &fov_lines, 50, Octant::O4);
    let o8 = build_fov_nodes_std_q16(FovRadius::R16, &fov_lines, 50, Octant::O8);

    for i in 0..o1.len() {
        assert_eq!(o1[i].wall_n, o4[i].wall_n);
        assert_eq!(o1[i].wall_w, o8[i].wall_w);
    }
    // The wall masks are real data: somewhere they differ from the body.
    assert!(o1.iter().any(|n| n.wall_n != n.body));
}
