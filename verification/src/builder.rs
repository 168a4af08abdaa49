//! Simple FOV node builder: one obstruction subpart, the tile `body`.
//!
//! Building an octant:
//! - Generate the canonical sightlines once per (radius, Q-factor) pair.
//! - Sweep every `(dpri, dsec)` position of one octant in increasing order,
//!   culling positions outside the circular radius.
//! - For each surviving position, record which sightlines cross the tile's
//!   near edges as a bitmask: bit `i` is set exactly when sightline `i`
//!   crosses either near edge of the tile.

use vstd::prelude::*;
use vstd::std_specs::iter::IteratorSpec;

use crate::fov::body_lines;
use crate::fov::fov_line_at;
use crate::fov::line_count;
use crate::fov::radius_int;
use crate::fov::single_line;
use crate::fov::FovLines;
use crate::fov::FovRadius;
use crate::fov::Octant;
use crate::fov::QFactor;
use crate::math::lemma_square_bound;
use crate::math::seg_denom;
use crate::math::seg_intersects;
use crate::math::seg_t_num;
use crate::math::seg_u_num;
use crate::math::Line;
use crate::math::SCALE;

verus! {

/// Node in an FOV map representing a single tile with 16 FOV bits (`Q=16`).
#[derive(Debug, Clone, Copy, PartialEq, Eq, Structural)]
pub struct FovNode16 {
    pub body: u16,
    pub dpri: u8,
    pub dsec: u8,
}

/// The mask with only sightline bit `n` set.
pub open spec fn bit16(n: int) -> u16 {
    1u16 << (n as u16)
}

/// The canonical sightline sequence of a (radius, Q-factor) pair.
pub open spec fn canonical_lines(rfov: FovRadius, q: QFactor) -> Seq<Line> {
    Seq::new(line_count(rfov, q) as nat, |n: int| fov_line_at(rfov, q, n))
}

/// The near tile face along the secondary axis, placed at `(p, s)` tiles.
pub open spec fn body_edge_sec(p: int, s: int) -> Line {
    Line {
        x1: (SCALE * p) as i64,
        y1: (SCALE * s) as i64,
        x2: (SCALE * p) as i64,
        y2: (SCALE * s + SCALE) as i64,
    }
}

/// The near tile face along the primary axis, placed at `(p, s)` tiles.
pub open spec fn body_edge_pri(p: int, s: int) -> Line {
    Line {
        x1: (SCALE * p) as i64,
        y1: (SCALE * s) as i64,
        x2: (SCALE * p + SCALE) as i64,
        y2: (SCALE * s) as i64,
    }
}

/// Sightline `l` crosses the tile body at `(p, s)` tiles: it intersects
/// either of the tile's two near edges.
pub open spec fn line_hits_body(l: Line, p: int, s: int) -> bool {
    seg_intersects(l, body_edge_sec(p, s)) || seg_intersects(l, body_edge_pri(p, s))
}

/// The `body` bitmask over the first `k` sightlines at position `(p, s)`:
/// bit `n` is set exactly when sightline `n` crosses the tile body.
pub open spec fn body_mask_upto(lines: Seq<Line>, p: int, s: int, k: int) -> u16
    decreases k,
{
    if k <= 0 {
        0u16
    } else {
        let prev = body_mask_upto(lines, p, s, k - 1);
        if line_hits_body(lines[k - 1], p, s) {
            prev | bit16(k - 1)
        } else {
            prev
        }
    }
}

/// The `body` bitmask over all sightlines at position `(p, s)`.
pub open spec fn body_mask(lines: Seq<Line>, p: int, s: int) -> u16 {
    body_mask_upto(lines, p, s, lines.len() as int)
}

/// Circular culling: `(p, s)` lies within `radius + circ` tiles of the
/// origin (compared on exact squared distances).
pub open spec fn within_radius(rfov: FovRadius, circ: int, p: int, s: int) -> bool {
    SCALE * SCALE * (p * p + s * s) <= (SCALE * radius_int(rfov) + circ) * (SCALE * radius_int(
        rfov,
    ) + circ)
}

/// `(p, s)` is a candidate node position of one octant: on the triangular
/// sweep grid and within the culling radius.
pub open spec fn valid_pos(rfov: FovRadius, circ: int, p: int, s: int) -> bool {
    &&& 1 <= p <= radius_int(rfov)
    &&& 0 <= s <= p
    &&& within_radius(rfov, circ, p, s)
}

/// Nodes are swept in strictly increasing order: primary distance first,
/// then secondary distance.
pub open spec fn node_lt(a: FovNode16, b: FovNode16) -> bool {
    a.dpri < b.dpri || (a.dpri == b.dpri && a.dsec < b.dsec)
}

/// The node sequence is strictly sorted in sweep order.
pub open spec fn nodes_sorted(ns: Seq<FovNode16>) -> bool {
    forall|i: int, j: int| 0 <= i < j < ns.len() ==> node_lt(ns[i], ns[j])
}

/// Some node of the sequence sits at position `(p, s)`.
pub open spec fn node_present(ns: Seq<FovNode16>, p: int, s: int) -> bool {
    exists|i: int| 0 <= i < ns.len() && ns[i].dpri == p && ns[i].dsec == s
}

/// A non-origin node is well-formed: its position is a surviving candidate
/// and its `body` mask records exactly the sightlines that cross it.
pub open spec fn node_valid_q16(n: FovNode16, rfov: FovRadius, q: QFactor, circ: int) -> bool {
    &&& valid_pos(rfov, circ, n.dpri as int, n.dsec as int)
    &&& n.body == body_mask(canonical_lines(rfov, q), n.dpri as int, n.dsec as int)
}

/// The full contract of a built Simple-FOV node sequence:
/// - it starts with the origin sentinel node, whose `body` mask has all bits
///   set (the origin is always visible to itself);
/// - every other node is a surviving sweep position with its exact sightline
///   bitmask;
/// - nodes appear in strictly increasing sweep order (primary distance,
///   then secondary distance);
/// - every surviving sweep position appears.
pub open spec fn body_nodes_canonical(
    ns: Seq<FovNode16>,
    rfov: FovRadius,
    q: QFactor,
    circ: int,
) -> bool {
    &&& ns.len() >= 1
    &&& ns[0] == (FovNode16 { body: 0xFFFFu16, dpri: 0, dsec: 0 })
    &&& forall|i: int| 1 <= i < ns.len() ==> node_valid_q16(#[trigger] ns[i], rfov, q, circ)
    &&& nodes_sorted(ns)
    &&& forall|p: int, s: int| valid_pos(rfov, circ, p, s) ==> node_present(ns, p, s)
}

/// Computes the `body` sightline bitmask of position `(dpri, dsec)`.
#[verifier::loop_isolation(false)]
pub(crate) fn body_mask_q16(fov_lines: &FovLines, dpri: u8, dsec: u8) -> (body: u16)
    requires
        fov_lines.radius == FovRadius::R16,
        fov_lines.qfactor == QFactor::Single,
        fov_lines.wf(),
        dpri <= 16,
        dsec <= 16,
    ensures
        body == body_mask(fov_lines@, dpri as int, dsec as int),
{
    let pp = dpri as i64;
    let ss = dsec as i64;
    let (body_base_1, body_base_2) = body_lines();
    let e1 = body_base_1.shifted_by(SCALE * pp, SCALE * ss);
    let e2 = body_base_2.shifted_by(SCALE * pp, SCALE * ss);
    proof {
        assert(e1 == body_edge_sec(dpri as int, dsec as int));
        assert(e2 == body_edge_pri(dpri as int, dsec as int));
    }

    let nlines = fov_lines.len();
    let mut body: u16 = 0;
    let mut b: usize = 0;
    while b < nlines
        invariant
            b <= nlines,
            body == body_mask_upto(fov_lines@, dpri as int, dsec as int, b as int),
        decreases nlines - b,
    {
        let l = fov_lines.get(b);
        if l.intersects(e1) || l.intersects(e2) {
            body = body | (1u16 << (b as u16));
        }
        b = b + 1;
    }
    body
}

/// Builds nodes for a _Simple_ FOV octant with Q-value `16`.
///
/// Notes:
/// - `circ_adj` is the circular culling value used to define FOV shape, in
///   fixed-point units of a tile (`SCALE / 2` is the recommended half-tile).
/// - The first node `(0, 0)` is always visible (all bits set).
/// - The result is identical for all eight octants, since the body edge
///   geometry is octant-invariant.
#[verifier::loop_isolation(false)]
pub fn build_fov_nodes_q16(rfov: FovRadius, fov_lines: &FovLines, circ_adj: i64) -> (nodes: Vec<
    FovNode16,
>)
    requires
        rfov == FovRadius::R16,
        fov_lines.radius == FovRadius::R16,
        fov_lines.qfactor == QFactor::Single,
        fov_lines.wf(),
        0 <= circ_adj <= SCALE,
    ensures
        body_nodes_canonical(nodes@, FovRadius::R16, QFactor::Single, circ_adj as int),
        nodes@.len() <= 273,
{
    proof {
        assert(fov_lines@ =~= canonical_lines(FovRadius::R16, QFactor::Single));
    }
    let mut nodes: Vec<FovNode16> = Vec::new();
    nodes.push(FovNode16 { body: 0xFFFF, dpri: 0, dsec: 0 });

    let r_int: u8 = rfov.to_int();
    let limit: i64 = rfov.to_scaled() + circ_adj;
    proof {
        lemma_square_bound(limit as int, 2000);
    }
    let limit_sq: i64 = limit * limit;

    let mut dpri: u8 = 1;
    while dpri <= r_int
        invariant
            1 <= dpri <= r_int + 1,
            nodes@.len() >= 1,
            nodes@[0] == (FovNode16 { body: 0xFFFFu16, dpri: 0, dsec: 0 }),
            forall|i: int|
                1 <= i < nodes@.len() ==> node_valid_q16(
                    #[trigger] nodes@[i],
                    FovRadius::R16,
                    QFactor::Single,
                    circ_adj as int,
                ),
            forall|i: int| 1 <= i < nodes@.len() ==> (#[trigger] nodes@[i]).dpri < dpri,
            nodes@.len() <= 1 + 17 * (dpri - 1),
            nodes_sorted(nodes@),
            forall|p: int, s: int|
                valid_pos(FovRadius::R16, circ_adj as int, p, s) && p < dpri ==> node_present(
                    nodes@,
                    p,
                    s,
                ),
        decreases r_int + 1 - dpri,
    {
        let mut dsec: u8 = 0;
        while dsec <= dpri
            invariant
                0 <= dsec <= dpri + 1,
                nodes@.len() >= 1,
                nodes@[0] == (FovNode16 { body: 0xFFFFu16, dpri: 0, dsec: 0 }),
                forall|i: int|
                    1 <= i < nodes@.len() ==> node_valid_q16(
                        #[trigger] nodes@[i],
                        FovRadius::R16,
                        QFactor::Single,
                        circ_adj as int,
                    ),
                forall|i: int|
                    1 <= i < nodes@.len() ==> (#[trigger] nodes@[i]).dpri < dpri || (
                    nodes@[i].dpri == dpri && nodes@[i].dsec < dsec),
                nodes@.len() <= 1 + 17 * (dpri - 1) + dsec,
                nodes_sorted(nodes@),
                forall|p: int, s: int|
                    valid_pos(FovRadius::R16, circ_adj as int, p, s) && (p < dpri || (p == dpri
                        && s < dsec)) ==> node_present(nodes@, p, s),
            decreases dpri + 1 - dsec,
        {
            let pp = dpri as i64;
            let ss = dsec as i64;
            proof {
                lemma_square_bound(pp as int, 255);
                lemma_square_bound(ss as int, 255);
            }
            let dist_sq: i64 = pp * pp + ss * ss;
            let ghost prev = nodes@;
            let keep = SCALE * SCALE * dist_sq <= limit_sq;
            proof {
                assert(keep == within_radius(
                    FovRadius::R16,
                    circ_adj as int,
                    dpri as int,
                    dsec as int,
                ));
            }
            if keep {
                let body = body_mask_q16(fov_lines, dpri, dsec);
                nodes.push(FovNode16 { body, dpri, dsec });
                proof {
                    let n = prev.len() as int;
                    assert(nodes@[n] == (FovNode16 { body, dpri, dsec }));
                    assert(node_present(nodes@, dpri as int, dsec as int));
                    assert(forall|i: int| 0 <= i < n ==> nodes@[i] == prev[i]);
                    assert forall|i: int, j: int| 0 <= i < j < nodes@.len() implies node_lt(
                        nodes@[i],
                        nodes@[j],
                    ) by {
                        if j < n {
                            assert(node_lt(prev[i], prev[j]));
                        }
                    }
                }
            }
            proof {
                assert forall|p: int, s: int|
                    valid_pos(FovRadius::R16, circ_adj as int, p, s) && (p < dpri || (p == dpri
                        && s < dsec + 1)) implies node_present(nodes@, p, s) by {
                    if p == dpri as int && s == dsec as int {
                        assert(node_present(nodes@, p, s));
                    } else {
                        assert(node_present(prev, p, s));
                        let i = choose|i: int|
                            0 <= i < prev.len() && prev[i].dpri == p && prev[i].dsec == s;
                        assert(nodes@[i] == prev[i]);
                        assert(node_present(nodes@, p, s));
                    }
                }
            }
            dsec = dsec + 1;
        }
        dpri = dpri + 1;
    }
    nodes
}

/// Only sightline 0 crosses the tile body at the outermost on-axis
/// position `(radius, 0)`.
proof fn lemma_hits_at_axis(n: int)
    requires
        0 <= n < 16,
    ensures
        line_hits_body(single_line(FovRadius::R16, n), 16, 0) <==> n == 0,
{
    let l = single_line(FovRadius::R16, n);
    let e1 = body_edge_sec(16, 0);
    let e2 = body_edge_pri(16, 0);
    assert(l.x1 == 50 && l.y1 == 50 && l.x2 == 1650 && l.y2 == 100 * n + 101);
    assert(e1.x1 == 1600 && e1.y1 == 0 && e1.x2 == 1600 && e1.y2 == 100);
    assert(e2.x1 == 1600 && e2.y1 == 0 && e2.x2 == 1700 && e2.y2 == 0);
    assert(seg_denom(l, e1) == 160000);
    assert(seg_t_num(l, e1) == 155000);
    assert(seg_u_num(l, e1) == 155000 * n + 159050);
    assert(seg_intersects(l, e1) <==> n == 0);
    assert(seg_t_num(l, e2) == 5000);
    assert(seg_denom(l, e2) == -(10000 * n + 5100));
    assert(!seg_intersects(l, e2));
}

/// At an outermost off-axis position `(radius, s)`, sightline `s` crosses
/// the tile's secondary-axis edge and sightline `s - 1` crosses its
/// primary-axis edge.
proof fn lemma_hits_off_axis(s: int)
    requires
        1 <= s <= 15,
    ensures
        line_hits_body(single_line(FovRadius::R16, s), 16, s),
        line_hits_body(single_line(FovRadius::R16, s - 1), 16, s),
{
    let lv = single_line(FovRadius::R16, s);
    let e1 = body_edge_sec(16, s);
    assert(lv.x1 == 50 && lv.y1 == 50 && lv.x2 == 1650 && lv.y2 == 100 * s + 101);
    assert(e1.x1 == 1600 && e1.y1 == 100 * s && e1.x2 == 1600 && e1.y2 == 100 * s + 100);
    assert(seg_denom(lv, e1) == 160000);
    assert(seg_t_num(lv, e1) == 155000);
    assert(seg_u_num(lv, e1) == 155000 * s + 159050 - 160000 * s);
    assert(seg_intersects(lv, e1));

    let lh = single_line(FovRadius::R16, s - 1);
    let e2 = body_edge_pri(16, s);
    assert(lh.x1 == 50 && lh.y1 == 50 && lh.x2 == 1650 && lh.y2 == 100 * (s - 1) + 101);
    assert(e2.x1 == 1600 && e2.y1 == 100 * s && e2.x2 == 1700 && e2.y2 == 100 * s);
    assert(seg_denom(lh, e2) == -(10000 * (s - 1) + 5100));
    assert(seg_t_num(lh, e2) == 5000 - 10000 * s);
    assert(seg_u_num(lh, e2) == 155000 * (s - 1) + 159050 - 160000 * s);
    assert(seg_intersects(lh, e2));
}

/// A sightline bit, once set, survives every later OR of the mask fold.
proof fn lemma_mask_bit_set(lines: Seq<Line>, p: int, s: int, k: int, n: int)
    requires
        0 <= n < k <= 16,
        line_hits_body(lines[n], p, s),
    ensures
        body_mask_upto(lines, p, s, k) & bit16(n) != 0,
    decreases k,
{
    let j = n as u16;
    if k == n + 1 {
        let m = body_mask_upto(lines, p, s, n);
        assert((m | (1u16 << j)) & (1u16 << j) != 0) by (bit_vector)
            requires
                j < 16,
        ;
    } else {
        lemma_mask_bit_set(lines, p, s, k - 1, n);
        let m = body_mask_upto(lines, p, s, k - 1);
        let y = bit16(k - 1);
        assert(m & (1u16 << j) != 0 ==> (m | y) & (1u16 << j) != 0) by (bit_vector);
    }
}

/// A mask fold over sightlines of which only sightline 0 crosses the tile
/// is exactly `1`.
proof fn lemma_mask_only_bit0(lines: Seq<Line>, p: int, s: int, k: int)
    requires
        1 <= k <= 16,
        line_hits_body(lines[0], p, s),
        forall|n: int| 1 <= n < k ==> !line_hits_body(#[trigger] lines[n], p, s),
    ensures
        body_mask_upto(lines, p, s, k) == 1u16,
    decreases k,
{
    if k == 1 {
        assert(body_mask_upto(lines, p, s, 0) == 0u16);
        assert(0u16 | (1u16 << 0u16) == 1u16) by (bit_vector);
        assert(bit16(0) == 1u16 << 0u16);
    } else {
        lemma_mask_only_bit0(lines, p, s, k - 1);
    }
}

/// At the outermost on-axis position `(radius, 0)` of a built Simple node
/// sequence, exactly one sightline bit is set in the `body` mask: the
/// position lies on the octant's primary axis and is touched only by the
/// innermost sightline.
pub proof fn lemma_outermost_axis_single_bit(ns: Seq<FovNode16>, circ: int, i: int)
    requires
        body_nodes_canonical(ns, FovRadius::R16, QFactor::Single, circ),
        0 <= i < ns.len(),
        ns[i].dpri == 16,
        ns[i].dsec == 0,
    ensures
        ns[i].body == 1u16,
{
    let lines = canonical_lines(FovRadius::R16, QFactor::Single);
    assert(i >= 1);
    assert(ns[i].body == body_mask(lines, 16, 0));
    assert forall|n: int| 1 <= n < 16 implies !line_hits_body(#[trigger] lines[n], 16, 0) by {
        assert(lines[n] == single_line(FovRadius::R16, n));
        lemma_hits_at_axis(n);
    }
    assert(lines[0] == single_line(FovRadius::R16, 0));
    lemma_hits_at_axis(0);
    lemma_mask_only_bit0(lines, 16, 0, 16);
}

/// At an outermost off-axis position `(radius, s > 0)` of a built Simple
/// node sequence, at least two distinct sightline bits are set in the
/// `body` mask: bits `s - 1` and `s`.
pub proof fn lemma_outermost_off_axis_two_bits(ns: Seq<FovNode16>, circ: int, i: int)
    requires
        body_nodes_canonical(ns, FovRadius::R16, QFactor::Single, circ),
        0 <= circ <= SCALE,
        0 <= i < ns.len(),
        ns[i].dpri == 16,
        ns[i].dsec > 0,
    ensures
        ns[i].body & bit16(ns[i].dsec - 1) != 0,
        ns[i].body & bit16(ns[i].dsec as int) != 0,
        bit16(ns[i].dsec - 1) != bit16(ns[i].dsec as int),
{
    let lines = canonical_lines(FovRadius::R16, QFactor::Single);
    let s = ns[i].dsec as int;
    assert(i >= 1);
    assert(ns[i].body == body_mask(lines, 16, s));
    assert(within_radius(FovRadius::R16, circ, 16, s));
    assert(s <= 15) by {
        assert((1600 + circ) * (1600 + circ) <= 2890000) by (nonlinear_arith)
            requires
                0 <= circ <= 100,
        ;
        if s >= 16 {
            assert(SCALE * SCALE * (16 * 16 + s * s) > 2890000) by (nonlinear_arith)
                requires
                    s >= 16,
                    SCALE == 100,
            ;
        }
    }
    lemma_hits_off_axis(s);
    assert(lines[s] == single_line(FovRadius::R16, s));
    assert(lines[s - 1] == single_line(FovRadius::R16, s - 1));
    lemma_mask_bit_set(lines, 16, s, 16, s);
    lemma_mask_bit_set(lines, 16, s, 16, s - 1);
    let a = (s - 1) as u16;
    let b = s as u16;
    assert(a < b < 16 ==> (1u16 << a) != (1u16 << b)) by (bit_vector);
}

/// A canonically built Simple node sequence feeds an octant wrapper: it is
/// sorted, its primary distances stay within the radius, and every radius
/// up to the maximum has its on-axis node.
pub proof fn lemma_canonical_nodes_cover(ns: Seq<FovNode16>, circ: int)
    requires
        body_nodes_canonical(ns, FovRadius::R16, QFactor::Single, circ),
        0 <= circ,
    ensures
        nodes_sorted(ns),
        forall|i: int| 0 <= i < ns.len() ==> (#[trigger] ns[i]).dpri <= radius_int(FovRadius::R16),
        forall|r: int|
            0 <= r <= radius_int(FovRadius::R16) ==> #[trigger] node_present(ns, r, 0),
{
    assert forall|i: int|
        0 <= i < ns.len() implies (#[trigger] ns[i]).dpri <= radius_int(FovRadius::R16) by {
        if i >= 1 {
            assert(valid_pos(FovRadius::R16, circ, ns[i].dpri as int, ns[i].dsec as int));
        }
    }
    assert forall|r: int|
        0 <= r <= radius_int(FovRadius::R16) implies #[trigger] node_present(ns, r, 0) by {
        if r == 0 {
            assert(ns[0].dpri == 0 && ns[0].dsec == 0);
        } else {
            assert(SCALE * SCALE * (r * r + 0 * 0) <= (SCALE * radius_int(FovRadius::R16) + circ)
                * (SCALE * radius_int(FovRadius::R16) + circ)) by (nonlinear_arith)
                requires
                    1 <= r <= 16,
                    0 <= circ,
                    SCALE == 100,
            ;
            assert(within_radius(FovRadius::R16, circ, r, 0));
            assert(valid_pos(FovRadius::R16, circ, r, 0));
        }
    }
}

/// `idx` is the index of the last node whose primary distance is `r`: the
/// cutoff for a visibility sweep truncated to radius `r`.
pub open spec fn is_last_index_of_pri(ns: Seq<FovNode16>, r: int, idx: int) -> bool {
    &&& 0 <= idx < ns.len()
    &&& ns[idx].dpri == r
    &&& (idx == ns.len() - 1 || ns[idx + 1].dpri > r)
}

/// One of eight FOV octants, comprised of 16-bit FOV nodes.
///
/// Notes:
/// - For Simple FOV, octants differ only in how node positions map to x/y
///   deltas; the node contents are identical across octants.
/// - `node_indexes` holds the highest node index for each radius `r = 0` up
///   to the octant's full radius, so a sweep can be truncated to radius `r`
///   without scanning the node list.
pub struct FovOctant16 {
    pub rfov: FovRadius,
    pub octant: Octant,
    pub nodes: Vec<FovNode16>,
    pub node_indexes: Vec<usize>,
}

impl FovOctant16 {
    /// The radius lookup table matches the node list: entry `r` is the index
    /// of the last node at primary distance `r`.
    pub open spec fn wf(&self) -> bool {
        &&& nodes_sorted(self.nodes@)
        &&& self.node_indexes@.len() == radius_int(self.rfov) + 1
        &&& forall|r: int|
            0 <= r <= radius_int(self.rfov) ==> is_last_index_of_pri(
                self.nodes@,
                r,
                #[trigger] self.node_indexes@[r] as int,
            )
    }

    /// Builds a new `FovOctant16` over a built node list, scanning it once
    /// to record the last node index of every radius.
    pub fn new(nodes: &Vec<FovNode16>, rfov: FovRadius, octant: Octant) -> (o: FovOctant16)
        requires
            nodes_sorted(nodes@),
            forall|i: int|
                0 <= i < nodes@.len() ==> (#[trigger] nodes@[i]).dpri <= radius_int(rfov),
            forall|r: int| 0 <= r <= radius_int(rfov) ==> #[trigger] node_present(nodes@, r, 0),
        ensures
            o.rfov == rfov,
            o.octant == octant,
            o.nodes@ == nodes@,
            o.wf(),
    {
        let max_r: u8 = rfov.to_int();
        let n_nodes = nodes.len();
        proof {
            assert(node_present(nodes@, 0, 0));
            let j0 = choose|j: int|
                0 <= j < nodes@.len() && nodes@[j].dpri == 0 && nodes@[j].dsec == 0;
            assert(nodes@[0].dpri == 0 && nodes@[0].dsec == 0) by {
                if j0 > 0 {
                    assert(node_lt(nodes@[0], nodes@[j0]));
                }
            }
        }
        let mut node_indexes: Vec<usize> = Vec::new();
        let mut r: u8 = 0;
        let mut i: usize = 0;

        while i < n_nodes
            invariant
                n_nodes == nodes@.len(),
                i <= n_nodes,
                r <= max_r,
                max_r == radius_int(rfov),
                nodes_sorted(nodes@),
                forall|k: int|
                    0 <= k < nodes@.len() ==> (#[trigger] nodes@[k]).dpri <= radius_int(rfov),
                forall|r2: int|
                    0 <= r2 <= radius_int(rfov) ==> #[trigger] node_present(nodes@, r2, 0),
                nodes@[0].dpri == 0,
                node_indexes@.len() == r,
                forall|r2: int|
                    0 <= r2 < r ==> is_last_index_of_pri(
                        nodes@,
                        r2,
                        #[trigger] node_indexes@[r2] as int,
                    ),
                forall|k: int| 0 <= k < i ==> (#[trigger] nodes@[k]).dpri <= r,
                i > 0 ==> nodes@[i - 1].dpri == r,
                i == 0 ==> r == 0,
            decreases n_nodes - i,
        {
            if nodes[i].dpri > r {
                proof {
                    // The sweep never skips a radius: some node sits at
                    // primary distance `r + 1`, and sortedness places it here.
                    assert(r < max_r);
                    assert(node_present(nodes@, r + 1, 0));
                    let j = choose|j: int|
                        0 <= j < nodes@.len() && nodes@[j].dpri == r + 1 && nodes@[j].dsec == 0;
                    assert(i > 0);
                    assert(j >= i);
                    if i < j {
                        assert(node_lt(nodes@[i as int], nodes@[j]));
                    }
                    assert(nodes@[i as int].dpri == r + 1);
                }
                node_indexes.push(i - 1);
                r = r + 1;
            } else {
                proof {
                    if i > 0 {
                        assert(node_lt(nodes@[i - 1], nodes@[i as int]));
                    }
                }
            }
            i = i + 1;
        }
        proof {
            assert(n_nodes >= 1);
            assert(node_present(nodes@, max_r as int, 0));
            let j = choose|j: int|
                0 <= j < nodes@.len() && nodes@[j].dpri == max_r as int && nodes@[j].dsec == 0;
            assert(r == max_r);
        }
        node_indexes.push(n_nodes - 1);

        FovOctant16 { rfov, octant, nodes: nodes.clone(), node_indexes }
    }

    /// Returns an iterator over the FOV nodes in the octant.
    pub fn iter(&self) -> (it: std::slice::Iter<'_, FovNode16>)
        ensures
            it.remaining() == self.nodes@.as_ref(),
    {
        self.nodes.as_slice().iter()
    }

    /// Returns the FOV node at index `i`.
    pub fn get(&self, i: usize) -> (nd: FovNode16)
        requires
            i < self.nodes@.len(),
        ensures
            nd == self.nodes@[i as int],
    {
        self.nodes[i]
    }

    /// Returns the number of nodes in the octant.
    pub fn len(&self) -> (n: usize)
        ensures
            n == self.nodes@.len(),
    {
        self.nodes.len()
    }

    /// Returns the maximum FOV node index for a given radius.
    pub fn max_node_index(&self, radius: usize) -> (idx: usize)
        requires
            self.wf(),
            radius <= radius_int(self.rfov),
        ensures
            idx == self.node_indexes@[radius as int],
            is_last_index_of_pri(self.nodes@, radius as int, idx as int),
    {
        self.node_indexes[radius]
    }
}

} // verus!
