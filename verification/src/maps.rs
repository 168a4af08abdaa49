//! Tile-grid addressing and obstruction maps.

use vstd::prelude::*;

use crate::math::Point;
use crate::math::SCALE;

verus! {

/// 2D tile-grid address, in whole tiles.
#[derive(Debug, Clone, Copy, PartialEq, Eq, Structural)]
pub struct Coords {
    pub x: i32,
    pub y: i32,
}

impl Coords {
    pub fn new(x: i32, y: i32) -> (c: Coords)
        ensures
            c.x == x,
            c.y == y,
    {
        Coords { x, y }
    }
}

impl Point {
    /// Converts the current `Point` into the `Coords` of the tile containing
    /// it, flooring each fixed-point coordinate to a whole tile.
    pub fn to_coords(&self) -> (c: Coords)
        requires
            self.in_bounds(),
        ensures
            c.x == self.x as int / SCALE as int,
            c.y == self.y as int / SCALE as int,
    {
        let x = match self.x.checked_div_euclid(SCALE) {
            Some(q) => q,
            None => 0,
        };
        let y = match self.y.checked_div_euclid(SCALE) {
            Some(q) => q,
            None => 0,
        };
        Coords { x: x as i32, y: y as i32 }
    }
}

impl From<Point> for Coords {
    /// Converts a `Point` into the `Coords` of the tile containing it,
    /// flooring each fixed-point coordinate to a whole tile.
    fn from(p: Point) -> (c: Coords) {
        let x = match p.x.checked_div_euclid(SCALE) {
            Some(q) => q,
            None => 0,
        };
        let y = match p.y.checked_div_euclid(SCALE) {
            Some(q) => q,
            None => 0,
        };
        Coords { x: #[verifier::truncate] (x as i32), y: #[verifier::truncate] (y as i32) }
    }
}

impl vstd::std_specs::convert::FromSpecImpl<Point> for Coords {
    open spec fn obeys_from_spec() -> bool {
        true
    }

    open spec fn from_spec(p: Point) -> Coords {
        Coords { x: (p.x as int / SCALE as int) as i32, y: (p.y as int / SCALE as int) as i32 }
    }
}

/// 2D map of tiles with FOV obstructions, the read-only collaborator of the
/// runtime visibility query.
///
/// The only obstruction tracked here is the tile `body`: a body flag is set
/// exactly when the tile body is present and opaque. The grid is rectangular;
/// everything outside it is transparent.
pub struct TileMap {
    width: usize,
    height: usize,
    body: Vec<bool>,
}

impl TileMap {
    /// The grid's backing store holds one flag per tile.
    pub closed spec fn wf(&self) -> bool {
        self.body@.len() == self.width * self.height
    }

    pub closed spec fn spec_width(&self) -> int {
        self.width as int
    }

    pub closed spec fn spec_height(&self) -> int {
        self.height as int
    }

    /// True when `(x, y)` addresses a tile of the grid.
    pub open spec fn contains_spec(&self, x: int, y: int) -> bool {
        0 <= x < self.spec_width() && 0 <= y < self.spec_height()
    }

    /// Whether the tile body at `(x, y)` is present and opaque; tiles outside
    /// the grid are transparent.
    pub closed spec fn body_opaque_spec(&self, x: int, y: int) -> bool {
        self.contains_spec(x, y) && self.body@[y * self.spec_width() + x]
    }

    /// Creates a fully transparent map of `width * height` tiles.
    pub fn new(width: usize, height: usize) -> (m: TileMap)
        requires
            width <= 32768,
            height <= 32768,
        ensures
            m.wf(),
            m.spec_width() == width,
            m.spec_height() == height,
            forall|x: int, y: int| !m.body_opaque_spec(x, y),
    {
        proof {
            assert(width * height <= 32768 * 32768) by (nonlinear_arith)
                requires
                    width <= 32768,
                    height <= 32768,
            ;
        }
        let mut body: Vec<bool> = Vec::new();
        let n = width * height;
        let mut i: usize = 0;
        while i < n
            invariant
                i <= n,
                body@.len() == i,
                forall|k: int| 0 <= k < i ==> !body@[k],
            decreases n - i,
        {
            body.push(false);
            i = i + 1;
        }
        let m = TileMap { width, height, body };
        proof {
            assert forall|x: int, y: int| !m.body_opaque_spec(x, y) by {
                if m.contains_spec(x, y) {
                    lemma_grid_index_bound(x, y, width as int, height as int);
                }
            }
        }
        m
    }

    pub fn width(&self) -> (w: usize)
        ensures
            w == self.spec_width(),
    {
        self.width
    }

    pub fn height(&self) -> (h: usize)
        ensures
            h == self.spec_height(),
    {
        self.height
    }

    /// True when `c` addresses a tile of the grid.
    pub fn contains(&self, c: Coords) -> (r: bool)
        ensures
            r == self.contains_spec(c.x as int, c.y as int),
    {
        if c.x < 0 || c.y < 0 {
            false
        } else {
            (c.x as usize) < self.width && (c.y as usize) < self.height
        }
    }

    /// Returns whether the tile body at `c` is present and opaque; tiles
    /// outside the grid are transparent.
    pub fn body_opaque(&self, c: Coords) -> (r: bool)
        requires
            self.wf(),
        ensures
            r == self.body_opaque_spec(c.x as int, c.y as int),
    {
        if !self.contains(c) {
            return false;
        }
        // The store length bounds the grid index below `usize::MAX`.
        let _store_len = self.body.len();
        proof {
            lemma_grid_index_bound(c.x as int, c.y as int, self.width as int, self.height as int);
        }
        let idx = (c.y as usize) * self.width + (c.x as usize);
        self.body[idx]
    }

    /// Returns the row-major tile id of an in-grid address: `y * width + x`.
    pub fn tile_id(&self, c: Coords) -> (id: usize)
        requires
            self.wf(),
            self.contains_spec(c.x as int, c.y as int),
        ensures
            id == c.y * self.spec_width() + c.x,
    {
        // The store length bounds the grid index below `usize::MAX`.
        let _store_len = self.body.len();
        proof {
            lemma_grid_index_bound(c.x as int, c.y as int, self.width as int, self.height as int);
        }
        (c.y as usize) * self.width + (c.x as usize)
    }

    /// Marks the tile body at `c` opaque (`true`) or transparent (`false`);
    /// every other tile keeps its flag.
    pub fn set_body_opaque(&mut self, c: Coords, opaque: bool)
        requires
            old(self).wf(),
            old(self).contains_spec(c.x as int, c.y as int),
        ensures
            final(self).wf(),
            final(self).spec_width() == old(self).spec_width(),
            final(self).spec_height() == old(self).spec_height(),
            final(self).body_opaque_spec(c.x as int, c.y as int) == opaque,
            forall|x: int, y: int|
                !(x == c.x as int && y == c.y as int) ==> final(self).body_opaque_spec(x, y) == old(
                    self,
                ).body_opaque_spec(x, y),
    {
        // The store length bounds the grid index below `usize::MAX`.
        let _store_len = self.body.len();
        proof {
            lemma_grid_index_bound(c.x as int, c.y as int, self.width as int, self.height as int);
        }
        let idx = (c.y as usize) * self.width + (c.x as usize);
        self.body.set(idx, opaque);
        proof {
            assert forall|x: int, y: int|
                !(x == c.x as int && y == c.y as int) implies self.body_opaque_spec(x, y) == old(
                self,
            ).body_opaque_spec(x, y) by {
                if self.contains_spec(x, y) {
                    lemma_grid_index_bound(x, y, self.width as int, self.height as int);
                    if y * self.spec_width() + x == c.y * self.spec_width() + c.x {
                        lemma_grid_index_unique(
                            x,
                            y,
                            c.x as int,
                            c.y as int,
                            self.width as int,
                            self.height as int,
                        );
                    }
                }
            }
        }
    }
}

/// A row-major grid index stays within the backing store.
proof fn lemma_grid_index_bound(x: int, y: int, w: int, h: int)
    by (nonlinear_arith)
    requires
        0 <= x < w,
        0 <= y < h,
    ensures
        0 <= y * w + x < w * h,
{
}

/// Row-major grid indexing is injective on in-grid addresses.
proof fn lemma_grid_index_unique(x1: int, y1: int, x2: int, y2: int, w: int, h: int)
    by (nonlinear_arith)
    requires
        0 <= x1 < w,
        0 <= y1 < h,
        0 <= x2 < w,
        0 <= y2 < h,
        y1 * w + x1 == y2 * w + x2,
    ensures
        x1 == x2 && y1 == y2,
{
}

} // verus!
