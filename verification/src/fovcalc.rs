//! Simple FOV runtime visibility query.
//!
//! _Simple_ FOV determines visibility for the tile `body` subpart only.
//! Within one octant, nodes are walked in sweep order while a blocked-bits
//! accumulator folds in the obstruction bits of every opaque tile passed so
//! far; a tile is visible exactly when at least one of its sightlines is not
//! yet blocked by anything nearer in the sweep.

use vstd::prelude::*;

use crate::builder::FovNode16;
use crate::builder::FovOctant16;
use crate::fov::dpds_to_dxdy_spec;
use crate::fov::radius_int;
use crate::fov::Octant;
use crate::fov::VisibleTile;
use crate::fovmap::FovMap16;
use crate::maps::Coords;
use crate::maps::TileMap;

verus! {

/// The blocked-bits accumulator after the first `k` nodes of a sweep: the
/// bitwise OR of the `body` masks of every blocked node among them.
pub open spec fn acc_after(ns: Seq<FovNode16>, blocked: Seq<bool>, k: int) -> u16
    decreases k,
{
    if k <= 0 {
        0u16
    } else {
        let prev = acc_after(ns, blocked, k - 1);
        if blocked[k - 1] {
            prev | ns[k - 1].body
        } else {
            prev
        }
    }
}

/// Node `i` is visible: at least one of its sightlines is unobstructed by
/// the nodes before it in the sweep.
pub open spec fn node_visible(ns: Seq<FovNode16>, blocked: Seq<bool>, i: int) -> bool {
    ns[i].body & !acc_after(ns, blocked, i) != 0u16
}

/// The visible tiles among the first `end` nodes of a sweep, in sweep
/// order, identified by node index.
pub open spec fn visible_tiles_seq(ns: Seq<FovNode16>, blocked: Seq<bool>, end: int) -> Seq<
    VisibleTile,
>
    decreases end,
{
    if end <= 0 {
        Seq::empty()
    } else {
        let prefix = visible_tiles_seq(ns, blocked, end - 1);
        if node_visible(ns, blocked, end - 1) {
            prefix.push(VisibleTile { id: (end - 1) as usize, body: true, wall_n: false, wall_w: false })
        } else {
            prefix
        }
    }
}

/// Returns the visible tiles of a single FOV octant, identified by node
/// index, for a sweep truncated to `radius`.
///
/// `blocked[i]` says whether the real map tile under node `i` is present
/// and opaque; the caller derives it from its obstruction map. Nodes are
/// processed in ascending sweep order, so every nearer tile's obstruction
/// bits are folded in before a farther tile is judged.
pub fn fov_calc(octant: &FovOctant16, blocked: &Vec<bool>, radius: usize) -> (tiles: Vec<
    VisibleTile,
>)
    requires
        octant.wf(),
        blocked@.len() == octant.nodes@.len(),
        radius <= radius_int(octant.rfov),
    ensures
        tiles@ == visible_tiles_seq(
            octant.nodes@,
            blocked@,
            octant.node_indexes@[radius as int] + 1,
        ),
{
    let limit = octant.max_node_index(radius);
    let n = octant.len();
    let mut tiles: Vec<VisibleTile> = Vec::new();
    let mut acc: u16 = 0;
    let mut i: usize = 0;
    while i <= limit
        invariant
            octant.wf(),
            blocked@.len() == octant.nodes@.len(),
            n == octant.nodes@.len(),
            limit == octant.node_indexes@[radius as int],
            limit < n,
            i <= limit + 1,
            acc == acc_after(octant.nodes@, blocked@, i as int),
            tiles@ == visible_tiles_seq(octant.nodes@, blocked@, i as int),
        decreases limit + 1 - i,
    {
        let node = octant.get(i);
        if node.body & !acc != 0 {
            tiles.push(VisibleTile { id: i, body: true, wall_n: false, wall_w: false });
        }
        if blocked[i] {
            acc = acc | node.body;
        }
        i = i + 1;
    }
    tiles
}

/// Every entry of a visible-tiles sequence refers to a node before `end`.
proof fn lemma_visible_tiles_ids(ns: Seq<FovNode16>, blocked: Seq<bool>, end: int)
    ensures
        forall|k: int|
            0 <= k < visible_tiles_seq(ns, blocked, end).len() ==> (#[trigger] visible_tiles_seq(
                ns,
                blocked,
                end,
            )[k]).id < end,
    decreases end,
{
    if end > 0 {
        lemma_visible_tiles_ids(ns, blocked, end - 1);
        let s = visible_tiles_seq(ns, blocked, end);
        let prev = visible_tiles_seq(ns, blocked, end - 1);
        assert forall|k: int| 0 <= k < s.len() implies (#[trigger] s[k]).id < end by {
            if node_visible(ns, blocked, end - 1) {
                if k < prev.len() {
                    assert(s[k] == prev[k]);
                } else {
                    assert(s[k].id == (end - 1) as usize);
                    if end - 1 <= usize::MAX {
                        assert(s[k].id == end - 1);
                    } else {
                        assert(s[k].id <= usize::MAX < end);
                    }
                }
            } else {
                assert(s[k] == prev[k]);
            }
        }
    }
}

/// Whether the map tile under node `i` of an octant sweep from `origin` is
/// present and opaque.
pub open spec fn blocked_seq(ns: Seq<FovNode16>, map: TileMap, origin: Coords, o: Octant) -> Seq<
    bool,
> {
    Seq::new(
        ns.len(),
        |i: int|
            {
                let d = dpds_to_dxdy_spec(o, ns[i].dpri as int, ns[i].dsec as int);
                map.body_opaque_spec(origin.x + d.0, origin.y + d.1)
            },
    )
}

/// Visible node indices re-identified as map tile ids: tiles that fall
/// outside the map are dropped, the rest get the id `y * width + x` of the
/// map tile under them.
pub open spec fn remap_tiles_seq(
    ts: Seq<VisibleTile>,
    ns: Seq<FovNode16>,
    map: TileMap,
    origin: Coords,
    o: Octant,
) -> Seq<VisibleTile>
    decreases ts.len(),
{
    if ts.len() == 0 {
        Seq::empty()
    } else {
        let prefix = remap_tiles_seq(ts.drop_last(), ns, map, origin, o);
        let t = ts.last();
        let d = dpds_to_dxdy_spec(o, ns[t.id as int].dpri as int, ns[t.id as int].dsec as int);
        let tx = origin.x + d.0;
        let ty = origin.y + d.1;
        if map.contains_spec(tx, ty) {
            prefix.push(
                VisibleTile {
                    id: (ty * map.spec_width() + tx) as usize,
                    body: t.body,
                    wall_n: t.wall_n,
                    wall_w: t.wall_w,
                },
            )
        } else {
            prefix
        }
    }
}

/// The visible tiles of one octant of a map query: the octant's visible
/// nodes, re-identified as map tile ids.
pub open spec fn octant_query_seq(
    oct: FovOctant16,
    map: TileMap,
    origin: Coords,
    radius: int,
) -> Seq<VisibleTile> {
    remap_tiles_seq(
        visible_tiles_seq(
            oct.nodes@,
            blocked_seq(oct.nodes@, map, origin, oct.octant),
            oct.node_indexes@[radius] + 1,
        ),
        oct.nodes@,
        map,
        origin,
        oct.octant,
    )
}

/// Returns the visible tiles of one FOV octant against a real obstruction
/// map, identified by map tile id.
fn octant_query(octant: &FovOctant16, map: &TileMap, origin: Coords, radius: usize) -> (tiles: Vec<
    VisibleTile,
>)
    requires
        octant.wf(),
        map.wf(),
        radius <= radius_int(octant.rfov),
        -1_000_000 <= origin.x <= 1_000_000,
        -1_000_000 <= origin.y <= 1_000_000,
    ensures
        tiles@ == octant_query_seq(*octant, *map, origin, radius as int),
{
    let ghost bl = blocked_seq(octant.nodes@, *map, origin, octant.octant);

    // Derive the blocked flag of every node from the obstruction map.
    let n = octant.len();
    let mut blocked: Vec<bool> = Vec::new();
    let mut i: usize = 0;
    while i < n
        invariant
            octant.wf(),
            map.wf(),
            -1_000_000 <= origin.x <= 1_000_000,
            -1_000_000 <= origin.y <= 1_000_000,
            forall|k: int|
                0 <= k < octant.nodes@.len() ==> (#[trigger] octant.nodes@[k]).dpri <= 255,
            n == octant.nodes@.len(),
            bl == blocked_seq(octant.nodes@, *map, origin, octant.octant),
            i <= n,
            blocked@.len() == i,
            forall|k: int| 0 <= k < i ==> blocked@[k] == bl[k],
        decreases n - i,
    {
        let node = octant.get(i);
        let d = octant.octant.dpds_to_dxdy(node.dpri as u16, node.dsec as u16);
        let c = Coords::new(origin.x + d.0 as i32, origin.y + d.1 as i32);
        blocked.push(map.body_opaque(c));
        i = i + 1;
    }
    proof {
        assert(blocked@ =~= bl);
    }

    // Decide visibility per node, then re-identify visible nodes as map
    // tiles, dropping those outside the map.
    let vis = fov_calc(octant, &blocked, radius);
    proof {
        lemma_visible_tiles_ids(
            octant.nodes@,
            blocked@,
            octant.node_indexes@[radius as int] + 1,
        );
    }
    let mut tiles: Vec<VisibleTile> = Vec::new();
    let mut j: usize = 0;
    while j < vis.len()
        invariant
            octant.wf(),
            map.wf(),
            -1_000_000 <= origin.x <= 1_000_000,
            -1_000_000 <= origin.y <= 1_000_000,
            forall|k: int|
                0 <= k < octant.nodes@.len() ==> (#[trigger] octant.nodes@[k]).dpri <= 255,
            forall|k: int| 0 <= k < vis@.len() ==> (#[trigger] vis@[k]).id < octant.nodes@.len(),
            j <= vis@.len(),
            tiles@ == remap_tiles_seq(
                vis@.subrange(0, j as int),
                octant.nodes@,
                *map,
                origin,
                octant.octant,
            ),
        decreases vis@.len() - j,
    {
        let t = vis[j];
        let node = octant.get(t.id);
        let d = octant.octant.dpds_to_dxdy(node.dpri as u16, node.dsec as u16);
        let c = Coords::new(origin.x + d.0 as i32, origin.y + d.1 as i32);
        if map.contains(c) {
            let id = map.tile_id(c);
            tiles.push(VisibleTile { id, body: t.body, wall_n: t.wall_n, wall_w: t.wall_w });
        }
        proof {
            assert(vis@.subrange(0, j + 1).drop_last() =~= vis@.subrange(0, j as int));
            assert(vis@.subrange(0, j + 1).last() == vis@[j as int]);
        }
        j = j + 1;
    }
    proof {
        assert(vis@.subrange(0, vis@.len() as int) =~= vis@);
    }
    tiles
}

/// Returns visible tiles for all eight FOV octants of a map query, walking
/// each octant outward from `origin` against the obstruction map.
///
/// Tiles on the boundary between two octants are reported by both; the
/// result is the concatenation of the eight octant queries in octant order.
pub fn get_visible_tiles(fovmap: &FovMap16, map: &TileMap, origin: Coords, r: usize) -> (tiles:
    Vec<VisibleTile>)
    requires
        fovmap.wf(),
        map.wf(),
        r <= radius_int(fovmap.rfov),
        -1_000_000 <= origin.x <= 1_000_000,
        -1_000_000 <= origin.y <= 1_000_000,
    ensures
        tiles@ == octant_query_seq(fovmap.octant_1, *map, origin, r as int) + octant_query_seq(
            fovmap.octant_2,
            *map,
            origin,
            r as int,
        ) + octant_query_seq(fovmap.octant_3, *map, origin, r as int) + octant_query_seq(
            fovmap.octant_4,
            *map,
            origin,
            r as int,
        ) + octant_query_seq(fovmap.octant_5, *map, origin, r as int) + octant_query_seq(
            fovmap.octant_6,
            *map,
            origin,
            r as int,
        ) + octant_query_seq(fovmap.octant_7, *map, origin, r as int) + octant_query_seq(
            fovmap.octant_8,
            *map,
            origin,
            r as int,
        ),
{
    let mut tiles = octant_query(&fovmap.octant_1, map, origin, r);
    let mut t2 = octant_query(&fovmap.octant_2, map, origin, r);
    let mut t3 = octant_query(&fovmap.octant_3, map, origin, r);
    let mut t4 = octant_query(&fovmap.octant_4, map, origin, r);
    let mut t5 = octant_query(&fovmap.octant_5, map, origin, r);
    let mut t6 = octant_query(&fovmap.octant_6, map, origin, r);
    let mut t7 = octant_query(&fovmap.octant_7, map, origin, r);
    let mut t8 = octant_query(&fovmap.octant_8, map, origin, r);
    tiles.append(&mut t2);
    tiles.append(&mut t3);
    tiles.append(&mut t4);
    tiles.append(&mut t5);
    tiles.append(&mut t6);
    tiles.append(&mut t7);
    tiles.append(&mut t8);
    tiles
}

} // verus!
