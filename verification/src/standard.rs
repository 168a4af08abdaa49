//! Standard FOV node builder: three obstruction subparts per tile — the
//! `body`, the north-facing wall `wall_n` and the west-facing wall `wall_w`.
//!
//! Unlike Simple FOV, the node sequences differ per octant: wall edges sit
//! on different sides of a tile depending on the octant's orientation, so
//! each octant's nodes carry their own wall masks (see the per-octant wall
//! tables in [`crate::fov::wall_n_line`] and [`crate::fov::wall_w_line`]).

use vstd::prelude::*;

use crate::builder::bit16;
use crate::builder::body_mask;
use crate::builder::canonical_lines;
use crate::builder::valid_pos;
use crate::builder::within_radius;
use crate::fov::wall_n_line;
use crate::fov::wall_n_line_spec;
use crate::fov::wall_w_line;
use crate::fov::wall_w_line_spec;
use crate::fov::FovLines;
use crate::fov::FovRadius;
use crate::fov::Octant;
use crate::fov::QFactor;
use crate::math::lemma_square_bound;
use crate::math::seg_intersects;
use crate::math::Line;
use crate::math::SCALE;

verus! {

/// Node in a Standard FOV map: one tile with 16 FOV bits per obstruction
/// subpart (`Q=16`).
#[derive(Debug, Clone, Copy, PartialEq, Eq, Structural)]
pub struct FovNodeStd16 {
    pub body: u16,
    pub wall_n: u16,
    pub wall_w: u16,
    pub dpri: u8,
    pub dsec: u8,
}

/// A canonical per-tile edge segment translated to `(p, s)` tiles.
pub open spec fn edge_at(edge: Line, p: int, s: int) -> Line {
    Line {
        x1: (edge.x1 + SCALE * p) as i64,
        y1: (edge.y1 + SCALE * s) as i64,
        x2: (edge.x2 + SCALE * p) as i64,
        y2: (edge.y2 + SCALE * s) as i64,
    }
}

/// The bitmask over the first `k` sightlines of those crossing a single
/// translated edge segment at `(p, s)`.
pub open spec fn edge_mask_upto(lines: Seq<Line>, edge: Line, p: int, s: int, k: int) -> u16
    decreases k,
{
    if k <= 0 {
        0u16
    } else {
        let prev = edge_mask_upto(lines, edge, p, s, k - 1);
        if seg_intersects(lines[k - 1], edge_at(edge, p, s)) {
            prev | bit16(k - 1)
        } else {
            prev
        }
    }
}

/// The bitmask over all sightlines of those crossing a single translated
/// edge segment at `(p, s)`.
pub open spec fn edge_mask(lines: Seq<Line>, edge: Line, p: int, s: int) -> u16 {
    edge_mask_upto(lines, edge, p, s, lines.len() as int)
}

/// Standard nodes are swept in the same strictly increasing order as
/// Simple nodes.
pub open spec fn std_node_lt(a: FovNodeStd16, b: FovNodeStd16) -> bool {
    a.dpri < b.dpri || (a.dpri == b.dpri && a.dsec < b.dsec)
}

/// The Standard node sequence is strictly sorted in sweep order.
pub open spec fn std_nodes_sorted(ns: Seq<FovNodeStd16>) -> bool {
    forall|i: int, j: int| 0 <= i < j < ns.len() ==> std_node_lt(ns[i], ns[j])
}

/// Some Standard node of the sequence sits at position `(p, s)`.
pub open spec fn std_node_present(ns: Seq<FovNodeStd16>, p: int, s: int) -> bool {
    exists|i: int| 0 <= i < ns.len() && ns[i].dpri == p && ns[i].dsec == s
}

/// A non-origin Standard node is well-formed for its octant: a surviving
/// sweep position whose three masks record exactly the sightlines crossing
/// the tile body, its north wall and its west wall, with the wall edges in
/// the octant's own orientation.
pub open spec fn std_node_valid_q16(
    n: FovNodeStd16,
    rfov: FovRadius,
    q: QFactor,
    circ: int,
    octant: Octant,
) -> bool {
    &&& valid_pos(rfov, circ, n.dpri as int, n.dsec as int)
    &&& n.body == body_mask(canonical_lines(rfov, q), n.dpri as int, n.dsec as int)
    &&& n.wall_n == edge_mask(
        canonical_lines(rfov, q),
        wall_n_line_spec(octant),
        n.dpri as int,
        n.dsec as int,
    )
    &&& n.wall_w == edge_mask(
        canonical_lines(rfov, q),
        wall_w_line_spec(octant),
        n.dpri as int,
        n.dsec as int,
    )
}

/// The full contract of a built Standard-FOV node sequence: as for Simple
/// nodes, but with the per-octant wall masks. The origin sentinel has all
/// `body` bits set and empty wall masks.
pub open spec fn std_nodes_canonical(
    ns: Seq<FovNodeStd16>,
    rfov: FovRadius,
    q: QFactor,
    circ: int,
    octant: Octant,
) -> bool {
    &&& ns.len() >= 1
    &&& ns[0] == (FovNodeStd16 { body: 0xFFFFu16, wall_n: 0u16, wall_w: 0u16, dpri: 0, dsec: 0 })
    &&& forall|i: int|
        1 <= i < ns.len() ==> std_node_valid_q16(#[trigger] ns[i], rfov, q, circ, octant)
    &&& std_nodes_sorted(ns)
    &&& forall|p: int, s: int| valid_pos(rfov, circ, p, s) ==> std_node_present(ns, p, s)
}

/// Computes the sightline bitmask of one translated edge segment at
/// position `(dpri, dsec)`.
#[verifier::loop_isolation(false)]
fn edge_mask_q16(fov_lines: &FovLines, edge: Line, dpri: u8, dsec: u8) -> (mask: u16)
    requires
        fov_lines.radius == FovRadius::R16,
        fov_lines.qfactor == QFactor::Single,
        fov_lines.wf(),
        0 <= edge.x1 <= SCALE,
        0 <= edge.y1 <= SCALE,
        0 <= edge.x2 <= SCALE,
        0 <= edge.y2 <= SCALE,
        dpri <= 16,
        dsec <= 16,
    ensures
        mask == edge_mask(fov_lines@, edge, dpri as int, dsec as int),
{
    let pp = dpri as i64;
    let ss = dsec as i64;
    let e = edge.shifted_by(SCALE * pp, SCALE * ss);
    proof {
        assert(e == edge_at(edge, dpri as int, dsec as int));
    }

    let nlines = fov_lines.len();
    let mut mask: u16 = 0;
    let mut b: usize = 0;
    while b < nlines
        invariant
            b <= nlines,
            mask == edge_mask_upto(fov_lines@, edge, dpri as int, dsec as int, b as int),
        decreases nlines - b,
    {
        let l = fov_lines.get(b);
        if l.intersects(e) {
            mask = mask | (1u16 << (b as u16));
        }
        b = b + 1;
    }
    mask
}

/// Builds nodes for a _Standard_ FOV octant with Q-value `16`.
///
/// Notes:
/// - `circ_adj` is the circular culling value used to define FOV shape, in
///   fixed-point units of a tile (`SCALE / 2` is the recommended half-tile).
/// - The first node `(0, 0)` is always visible (all `body` bits set, empty
///   wall masks).
/// - Standard nodes must be built once per octant: the wall edge geometry
///   differs between octants.
#[verifier::loop_isolation(false)]
pub fn build_fov_nodes_std_q16(
    rfov: FovRadius,
    fov_lines: &FovLines,
    circ_adj: i64,
    octant: Octant,
) -> (nodes: Vec<FovNodeStd16>)
    requires
        rfov == FovRadius::R16,
        fov_lines.radius == FovRadius::R16,
        fov_lines.qfactor == QFactor::Single,
        fov_lines.wf(),
        0 <= circ_adj <= SCALE,
    ensures
        std_nodes_canonical(nodes@, FovRadius::R16, QFactor::Single, circ_adj as int, octant),
        nodes@.len() <= 273,
{
    proof {
        assert(fov_lines@ =~= canonical_lines(FovRadius::R16, QFactor::Single));
    }
    let mut nodes: Vec<FovNodeStd16> = Vec::new();
    nodes.push(FovNodeStd16 { body: 0xFFFF, wall_n: 0, wall_w: 0, dpri: 0, dsec: 0 });

    let r_int: u8 = rfov.to_int();
    let limit: i64 = rfov.to_scaled() + circ_adj;
    proof {
        lemma_square_bound(limit as int, 2000);
    }
    let limit_sq: i64 = limit * limit;
    let wn = wall_n_line(octant);
    let ww = wall_w_line(octant);
    proof {
        assert(0 <= wn.x1 <= SCALE && 0 <= wn.y1 <= SCALE && 0 <= wn.x2 <= SCALE && 0 <= wn.y2
            <= SCALE);
        assert(0 <= ww.x1 <= SCALE && 0 <= ww.y1 <= SCALE && 0 <= ww.x2 <= SCALE && 0 <= ww.y2
            <= SCALE);
    }

    let mut dpri: u8 = 1;
    while dpri <= r_int
        invariant
            1 <= dpri <= r_int + 1,
            nodes@.len() >= 1,
            nodes@[0] == (FovNodeStd16 {
                body: 0xFFFFu16,
                wall_n: 0u16,
                wall_w: 0u16,
                dpri: 0,
                dsec: 0,
            }),
            forall|i: int|
                1 <= i < nodes@.len() ==> std_node_valid_q16(
                    #[trigger] nodes@[i],
                    FovRadius::R16,
                    QFactor::Single,
                    circ_adj as int,
                    octant,
                ),
            forall|i: int| 1 <= i < nodes@.len() ==> (#[trigger] nodes@[i]).dpri < dpri,
            nodes@.len() <= 1 + 17 * (dpri - 1),
            std_nodes_sorted(nodes@),
            forall|p: int, s: int|
                valid_pos(FovRadius::R16, circ_adj as int, p, s) && p < dpri ==> std_node_present(
                    nodes@,
                    p,
                    s,
                ),
        decreases r_int + 1 - dpri,
    {
        let mut dsec: u8 = 0;
        while dsec <= dpri
            invariant
                0 <= dsec <= dpri + 1,
                nodes@.len() >= 1,
                nodes@[0] == (FovNodeStd16 {
                    body: 0xFFFFu16,
                    wall_n: 0u16,
                    wall_w: 0u16,
                    dpri: 0,
                    dsec: 0,
                }),
                forall|i: int|
                    1 <= i < nodes@.len() ==> std_node_valid_q16(
                        #[trigger] nodes@[i],
                        FovRadius::R16,
                        QFactor::Single,
                        circ_adj as int,
                        octant,
                    ),
                forall|i: int|
                    1 <= i < nodes@.len() ==> (#[trigger] nodes@[i]).dpri < dpri || (
                    nodes@[i].dpri == dpri && nodes@[i].dsec < dsec),
                nodes@.len() <= 1 + 17 * (dpri - 1) + dsec,
                std_nodes_sorted(nodes@),
                forall|p: int, s: int|
                    valid_pos(FovRadius::R16, circ_adj as int, p, s) && (p < dpri || (p == dpri
                        && s < dsec)) ==> std_node_present(nodes@, p, s),
            decreases dpri + 1 - dsec,
        {
            let pp = dpri as i64;
            let ss = dsec as i64;
            proof {
                lemma_square_bound(pp as int, 255);
                lemma_square_bound(ss as int, 255);
            }
            let dist_sq: i64 = pp * pp + ss * ss;
            let ghost prev = nodes@;
            let keep = SCALE * SCALE * dist_sq <= limit_sq;
            proof {
                assert(keep == within_radius(
                    FovRadius::R16,
                    circ_adj as int,
                    dpri as int,
                    dsec as int,
                ));
            }
            if keep {
                let body = crate::builder::body_mask_q16(fov_lines, dpri, dsec);
                let wall_n = edge_mask_q16(fov_lines, wn, dpri, dsec);
                let wall_w = edge_mask_q16(fov_lines, ww, dpri, dsec);
                nodes.push(FovNodeStd16 { body, wall_n, wall_w, dpri, dsec });
                proof {
                    let n = prev.len() as int;
                    assert(nodes@[n] == (FovNodeStd16 { body, wall_n, wall_w, dpri, dsec }));
                    assert(std_node_present(nodes@, dpri as int, dsec as int));
                    assert(forall|i: int| 0 <= i < n ==> nodes@[i] == prev[i]);
                    assert forall|i: int, j: int| 0 <= i < j < nodes@.len() implies std_node_lt(
                        nodes@[i],
                        nodes@[j],
                    ) by {
                        if j < n {
                            assert(std_node_lt(prev[i], prev[j]));
                        }
                    }
                }
            }
            proof {
                assert forall|p: int, s: int|
                    valid_pos(FovRadius::R16, circ_adj as int, p, s) && (p < dpri || (p == dpri
                        && s < dsec + 1)) implies std_node_present(nodes@, p, s) by {
                    if p == dpri as int && s == dsec as int {
                        assert(std_node_present(nodes@, p, s));
                    } else {
                        assert(std_node_present(prev, p, s));
                        let i = choose|i: int|
                            0 <= i < prev.len() && prev[i].dpri == p && prev[i].dsec == s;
                        assert(nodes@[i] == prev[i]);
                        assert(std_node_present(nodes@, p, s));
                    }
                }
            }
            dsec = dsec + 1;
        }
        dpri = dpri + 1;
    }
    nodes
}

} // verus!
