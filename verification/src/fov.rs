//! Common FOV types: radii, octants, quantization, sightlines and the
//! canonical per-tile edge segments.

use vstd::prelude::*;
use vstd::std_specs::iter::IteratorSpec;

use crate::math::Delta;
use crate::math::Line;
use crate::math::Point;
use crate::math::COORD_LIMIT;
use crate::math::SCALE;

verus! {

/// Data for a visible tile and its subparts.
///
/// Subparts include:
/// - `body`: the main tile body.
/// - `wall_n`: the north wall.
/// - `wall_w`: the west wall.
#[derive(Debug, Clone, Copy, PartialEq, Eq, Structural)]
pub struct VisibleTile {
    pub id: usize,
    pub body: bool,
    pub wall_n: bool,
    pub wall_w: bool,
}

/// FOV radius used in calculations.
#[derive(Debug, Clone, Copy, PartialEq, Eq, Structural)]
pub enum FovRadius {
    R8,
    R16,
    R32,
    R64,
    R128,
}

/// Integer value of an FOV radius.
pub open spec fn radius_int(r: FovRadius) -> int {
    match r {
        FovRadius::R8 => 8,
        FovRadius::R16 => 16,
        FovRadius::R32 => 32,
        FovRadius::R64 => 64,
        FovRadius::R128 => 128,
    }
}

impl FovRadius {
    /// Converts `FovRadius` into integer `u8` form.
    pub fn to_int(&self) -> (r: u8)
        ensures
            r == radius_int(*self),
    {
        match self {
            FovRadius::R8 => 8,
            FovRadius::R16 => 16,
            FovRadius::R32 => 32,
            FovRadius::R64 => 64,
            FovRadius::R128 => 128,
        }
    }

    /// Converts `FovRadius` into fixed-point magnitude form (units of
    /// `1 / SCALE` tiles), for distance comparisons.
    pub fn to_scaled(&self) -> (r: i64)
        ensures
            r == SCALE * radius_int(*self),
    {
        match self {
            FovRadius::R8 => 800,
            FovRadius::R16 => 1600,
            FovRadius::R32 => 3200,
            FovRadius::R64 => 6400,
            FovRadius::R128 => 12800,
        }
    }
}

/// The eight primary subdivisions of an FOV map.
///
/// Visualized:
/// ```text
///
///    3 3 3  2 2 2
///  4   3 3  2 2   1
///  4 4   3  2   1 1
///  4 4 4      1 1 1
///         +
///  5 5 5      8 8 8
///  5 5   6  7   8 8
///  5   6 6  7 7   8
///    6 6 6  7 7 7
/// ```
#[derive(Debug, Clone, Copy, PartialEq, Eq, Structural)]
pub enum Octant {
    /// Octant ENE of origin.
    O1,
    /// Octant NNE of origin.
    O2,
    /// Octant NNW of origin.
    O3,
    /// Octant WNW of origin.
    O4,
    /// Octant WSW of origin.
    O5,
    /// Octant SSW of origin.
    O6,
    /// Octant SSE of origin.
    O7,
    /// Octant ESE of origin.
    O8,
}

/// The octant transform: primary/secondary deltas to x/y deltas. Each octant
/// is a signed coordinate permutation, hence a bijection.
pub open spec fn dpds_to_dxdy_spec(o: Octant, dp: int, ds: int) -> (int, int) {
    match o {
        Octant::O1 => (dp, ds),
        Octant::O2 => (ds, dp),
        Octant::O3 => (-ds, dp),
        Octant::O4 => (-dp, ds),
        Octant::O5 => (-dp, -ds),
        Octant::O6 => (-ds, -dp),
        Octant::O7 => (ds, -dp),
        Octant::O8 => (dp, -ds),
    }
}

/// The inverse octant transform: x/y deltas back to primary/secondary deltas.
pub open spec fn dxdy_to_dpds_spec(o: Octant, dx: int, dy: int) -> (int, int) {
    match o {
        Octant::O1 => (dx, dy),
        Octant::O2 => (dy, dx),
        Octant::O3 => (dy, -dx),
        Octant::O4 => (-dx, dy),
        Octant::O5 => (-dx, -dy),
        Octant::O6 => (-dy, -dx),
        Octant::O7 => (-dy, dx),
        Octant::O8 => (dx, -dy),
    }
}

impl Octant {
    /// Converts pri/sec deltas (`dpri`, `dsec`) to x/y deltas (`dx`, `dy`).
    ///
    /// Table:
    /// ```text
    /// Octant 1:   dx = (dpri *  1) + (dsec *  0)
    ///             dy = (dpri *  0) + (dsec *  1)
    ///
    /// Octant 2:   dx = (dpri *  0) + (dsec *  1)
    ///             dy = (dpri *  1) + (dsec *  0)
    ///
    /// Octant 3:   dx = (dpri *  0) + (dsec * -1)
    ///             dy = (dpri *  1) + (dsec *  0)
    ///
    /// Octant 4:   dx = (dpri * -1) + (dsec *  0)
    ///             dy = (dpri *  0) + (dsec *  1)
    ///
    /// Octant 5:   dx = (dpri * -1) + (dsec *  0)
    ///             dy = (dpri *  0) + (dsec * -1)
    ///
    /// Octant 6:   dx = (dpri *  0) + (dsec * -1)
    ///             dy = (dpri * -1) + (dsec *  0)
    ///
    /// Octant 7:   dx = (dpri *  0) + (dsec *  1)
    ///             dy = (dpri * -1) + (dsec *  0)
    ///
    /// Octant 8:   dx = (dpri *  1) + (dsec *  0)
    ///             dy = (dpri *  0) + (dsec * -1)
    /// ```
    pub fn dpds_to_dxdy(&self, dpri: u16, dsec: u16) -> (r: (i16, i16))
        requires
            dpri <= 32767,
            dsec <= 32767,
        ensures
            (r.0 as int, r.1 as int) == dpds_to_dxdy_spec(*self, dpri as int, dsec as int),
    {
        let dp = dpri as i16;
        let ds = dsec as i16;

        match self {
            Octant::O1 => (dp, ds),
            Octant::O2 => (ds, dp),
            Octant::O3 => (-ds, dp),
            Octant::O4 => (-dp, ds),
            Octant::O5 => (-dp, -ds),
            Octant::O6 => (-ds, -dp),
            Octant::O7 => (ds, -dp),
            Octant::O8 => (dp, -ds),
        }
    }

    /// Converts x/y deltas (`dx`, `dy`) back to pri/sec deltas; the inverse
    /// of [`dpds_to_dxdy`](Octant::dpds_to_dxdy). Defined on the octant's
    /// image: deltas whose pri/sec form is nonnegative.
    pub fn dxdy_to_dpds(&self, dx: i16, dy: i16) -> (r: (u16, u16))
        requires
            0 <= dxdy_to_dpds_spec(*self, dx as int, dy as int).0 <= 32767,
            0 <= dxdy_to_dpds_spec(*self, dx as int, dy as int).1 <= 32767,
        ensures
            (r.0 as int, r.1 as int) == dxdy_to_dpds_spec(*self, dx as int, dy as int),
    {
        let p: (i16, i16) = match self {
            Octant::O1 => (dx, dy),
            Octant::O2 => (dy, dx),
            Octant::O3 => (dy, -dx),
            Octant::O4 => (-dx, dy),
            Octant::O5 => (-dx, -dy),
            Octant::O6 => (-dy, -dx),
            Octant::O7 => (-dy, dx),
            Octant::O8 => (dx, -dy),
        };
        (p.0 as u16, p.1 as u16)
    }

    /// Converts fixed-point pri/sec deltas (`dp`, `ds`) to an x/y delta
    /// `Point`, for sub-tile positions such as sightline endpoints.
    pub fn dpds_to_dxdy_fx(&self, dp: i64, ds: i64) -> (p: Point)
        requires
            -COORD_LIMIT <= dp <= COORD_LIMIT,
            -COORD_LIMIT <= ds <= COORD_LIMIT,
        ensures
            (p.x as int, p.y as int) == dpds_to_dxdy_spec(*self, dp as int, ds as int),
    {
        match self {
            Octant::O1 => Point::new(dp, ds),
            Octant::O2 => Point::new(ds, dp),
            Octant::O3 => Point::new(-ds, dp),
            Octant::O4 => Point::new(-dp, ds),
            Octant::O5 => Point::new(-dp, -ds),
            Octant::O6 => Point::new(-ds, -dp),
            Octant::O7 => Point::new(ds, -dp),
            Octant::O8 => Point::new(dp, -ds),
        }
    }

    /// Converts `Octant` to integer `(dx, dy)` unit deltas: the signs of the
    /// octant's x/y quadrant.
    pub fn deltas_i(&self) -> (d: Delta)
        ensures
            (d.dx as int, d.dy as int) == octant_signs(*self),
    {
        match self {
            Octant::O1 => Delta::new(1, 1),
            Octant::O2 => Delta::new(1, 1),
            Octant::O3 => Delta::new(-1, 1),
            Octant::O4 => Delta::new(-1, 1),
            Octant::O5 => Delta::new(-1, -1),
            Octant::O6 => Delta::new(-1, -1),
            Octant::O7 => Delta::new(1, -1),
            Octant::O8 => Delta::new(1, -1),
        }
    }
}

/// The x/y quadrant signs of an octant.
pub open spec fn octant_signs(o: Octant) -> (int, int) {
    match o {
        Octant::O1 => (1, 1),
        Octant::O2 => (1, 1),
        Octant::O3 => (-1, 1),
        Octant::O4 => (-1, 1),
        Octant::O5 => (-1, -1),
        Octant::O6 => (-1, -1),
        Octant::O7 => (1, -1),
        Octant::O8 => (1, -1),
    }
}

/// The octant transform is a bijection: converting pri/sec deltas to x/y
/// deltas and back — in either order — recovers the original pair.
pub proof fn lemma_octant_transform_round_trip(o: Octant, dp: int, ds: int, dx: int, dy: int)
    ensures
        ({
            let xy = dpds_to_dxdy_spec(o, dp, ds);
            dxdy_to_dpds_spec(o, xy.0, xy.1) == (dp, ds)
        }),
        ({
            let ps = dxdy_to_dpds_spec(o, dx, dy);
            dpds_to_dxdy_spec(o, ps.0, ps.1) == (dx, dy)
        }),
{
}

/// Quantizing factor, multiplied by FOV radius to set FOV granularity.
#[derive(Debug, Clone, Copy, PartialEq, Eq, Structural)]
pub enum QFactor {
    Single,
    Double,
}

/// Sightline multiplier of a Q-factor.
pub open spec fn q_mult(q: QFactor) -> int {
    match q {
        QFactor::Single => 1,
        QFactor::Double => 2,
    }
}

/// Number of sightlines generated for a (radius, Q-factor) pair.
pub open spec fn line_count(r: FovRadius, q: QFactor) -> int {
    radius_int(r) * q_mult(q)
}

/// Sightline `n` of the Single-quantization set: from the origin tile's
/// center to primary distance `radius`, secondary offset `n` tiles plus the
/// [`SINGLE_SEC_OFFSET`] fraction.
pub open spec fn single_line(r: FovRadius, n: int) -> Line {
    Line {
        x1: (SCALE / 2) as i64,
        y1: (SCALE / 2) as i64,
        x2: (SCALE / 2 + SCALE * radius_int(r)) as i64,
        y2: (SCALE / 2 + SCALE * n + SINGLE_SEC_OFFSET) as i64,
    }
}

/// Secondary fractional offset (in fixed-point units) of Single-quantization
/// sightline endpoints: 0.51 of a tile. Just past the far tile's secondary
/// midpoint, so that no sightline endpoint or crossing lands exactly on a
/// tile-corner grid point, which would make boundary intersections
/// ambiguous.
pub const SINGLE_SEC_OFFSET: i64 = 51;

/// Secondary offset (in fixed-point units) of sightline `m` of the
/// Double-quantization set: one line a quarter tile from the near octant
/// boundary, one a quarter tile from the far boundary, and a pair at a
/// quarter tile around every whole secondary step in between.
pub open spec fn double_sec_offset(r: FovRadius, m: int) -> int {
    if m == 0 {
        SCALE / 4
    } else if m == 2 * radius_int(r) - 1 {
        SCALE * radius_int(r) - SCALE / 4
    } else if m % 2 == 1 {
        SCALE * ((m + 1) / 2) - SCALE / 4
    } else {
        SCALE * (m / 2) + SCALE / 4
    }
}

/// Sightline `m` of the Double-quantization set.
pub open spec fn double_line(r: FovRadius, m: int) -> Line {
    Line {
        x1: (SCALE / 2) as i64,
        y1: (SCALE / 2) as i64,
        x2: (SCALE / 2 + SCALE * radius_int(r)) as i64,
        y2: (SCALE / 2 + double_sec_offset(r, m)) as i64,
    }
}

/// Sightline `n` of the canonical set for a (radius, Q-factor) pair.
///
/// Sightlines are in strictly increasing secondary-offset order: bit `n` of
/// every FOV node mask refers to this line, and geometric adjacency of
/// sightlines matches bit-index adjacency.
pub open spec fn fov_line_at(r: FovRadius, q: QFactor, n: int) -> Line {
    match q {
        QFactor::Single => single_line(r, n),
        QFactor::Double => double_line(r, n),
    }
}

/// Sightlines are generated in strictly increasing secondary-offset order,
/// for both quantizations: bit-index adjacency in the node masks matches
/// geometric adjacency of the sightlines, and changing the order would
/// silently break every encoding built on it.
pub proof fn lemma_fov_lines_ordered(r: FovRadius, q: QFactor, n: int)
    requires
        0 <= n < line_count(r, q) - 1,
    ensures
        fov_line_at(r, q, n).y2 < fov_line_at(r, q, n + 1).y2,
{
    match q {
        QFactor::Single => {
        },
        QFactor::Double => {
            assert(double_sec_offset(r, n) < double_sec_offset(r, n + 1));
        },
    }
}

/// A list of FOV lines: the canonical, ordered sightline set of one
/// (radius, Q-factor) pair, shared by all eight octants.
pub struct FovLines {
    pub radius: FovRadius,
    pub qfactor: QFactor,
    pub inner: Vec<Line>,
}

impl View for FovLines {
    type V = Seq<Line>;

    open spec fn view(&self) -> Seq<Line> {
        self.inner@
    }
}

impl FovLines {
    /// The sightlines are exactly the canonical set of `(radius, qfactor)`.
    pub open spec fn wf(&self) -> bool {
        &&& self@.len() == line_count(self.radius, self.qfactor)
        &&& forall|n: int|
            0 <= n < self@.len() ==> self@[n] == fov_line_at(self.radius, self.qfactor, n)
    }

    /// Creates a new `FovLines` instance.
    pub fn new(rfov: FovRadius, qfactor: QFactor) -> (fl: FovLines)
        ensures
            fl.radius == rfov,
            fl.qfactor == qfactor,
            fl.wf(),
    {
        FovLines { radius: rfov, qfactor, inner: get_fov_lines(rfov, qfactor) }
    }

    /// Returns the sightline at index `i`.
    pub fn get(&self, i: usize) -> (l: Line)
        requires
            i < self@.len(),
        ensures
            l == self@[i as int],
    {
        self.inner[i]
    }

    /// Returns an iterator over the struct's FOV lines.
    pub fn iter(&self) -> (it: std::slice::Iter<'_, Line>)
        ensures
            it.remaining() == self@.as_ref(),
    {
        self.inner.as_slice().iter()
    }

    /// Returns the number of FOV lines in the struct.
    pub fn len(&self) -> (n: usize)
        ensures
            n == self@.len(),
    {
        self.inner.len()
    }
}

/// Returns a list of FOV lines with specified radius and Q-value.
///
/// FOV lines are defined in terms of `(pri, sec)` coordinates, as opposed to
/// `(x, y)` coordinates. All lines are the same due to symmetry between
/// octants. The list holds `radius` lines (Single) or `2 * radius` lines
/// (Double), in strictly increasing secondary-offset order.
pub fn get_fov_lines(rfov: FovRadius, qfactor: QFactor) -> (lines: Vec<Line>)
    ensures
        lines@.len() == line_count(rfov, qfactor),
        forall|n: int| 0 <= n < lines@.len() ==> lines@[n] == fov_line_at(rfov, qfactor, n),
{
    match qfactor {
        QFactor::Single => get_fov_lines_single(rfov),
        QFactor::Double => get_fov_lines_double(rfov),
    }
}

/// Returns the `radius` sightlines of the Single quantization.
fn get_fov_lines_single(rfov: FovRadius) -> (lines: Vec<Line>)
    ensures
        lines@.len() == radius_int(rfov),
        forall|n: int| 0 <= n < lines@.len() ==> lines@[n] == single_line(rfov, n),
{
    let mut lines: Vec<Line> = Vec::new();
    let r_int = rfov.to_int();
    let p0: i64 = SCALE / 2;
    let pfpri: i64 = p0 + rfov.to_scaled();

    let mut n: u8 = 0;
    while n < r_int
        invariant
            n <= r_int,
            r_int == radius_int(rfov),
            p0 == SCALE / 2,
            pfpri == SCALE / 2 + SCALE * radius_int(rfov),
            lines@.len() == n,
            forall|k: int| 0 <= k < lines@.len() ==> lines@[k] == single_line(rfov, k),
        decreases r_int - n,
    {
        let pfsec: i64 = p0 + SCALE * (n as i64) + SINGLE_SEC_OFFSET;
        lines.push(Line { x1: p0, y1: p0, x2: pfpri, y2: pfsec });
        n = n + 1;
    }
    lines
}

/// Returns the `2 * radius` sightlines of the Double quantization.
fn get_fov_lines_double(rfov: FovRadius) -> (lines: Vec<Line>)
    ensures
        lines@.len() == 2 * radius_int(rfov),
        forall|n: int| 0 <= n < lines@.len() ==> lines@[n] == double_line(rfov, n),
{
    let mut lines: Vec<Line> = Vec::new();
    let r_int = rfov.to_int();
    let p0: i64 = SCALE / 2;
    let pfpri: i64 = p0 + rfov.to_scaled();
    let quarter: i64 = SCALE / 4;

    // First sightline: a quarter tile from the near octant boundary.
    lines.push(Line { x1: p0, y1: p0, x2: pfpri, y2: p0 + quarter });

    // Paired sightlines around every whole secondary step in between.
    let mut n: u8 = 1;
    while n < r_int
        invariant
            1 <= n <= r_int,
            r_int == radius_int(rfov),
            p0 == SCALE / 2,
            quarter == SCALE / 4,
            pfpri == SCALE / 2 + SCALE * radius_int(rfov),
            lines@.len() == 2 * n - 1,
            forall|k: int| 0 <= k < lines@.len() ==> lines@[k] == double_line(rfov, k),
        decreases r_int - n,
    {
        let pny1: i64 = p0 + SCALE * (n as i64) - quarter;
        lines.push(Line { x1: p0, y1: p0, x2: pfpri, y2: pny1 });

        let pny2: i64 = p0 + SCALE * (n as i64) + quarter;
        lines.push(Line { x1: p0, y1: p0, x2: pfpri, y2: pny2 });
        n = n + 1;
    }

    // Final sightline: a quarter tile from the far octant boundary.
    lines.push(Line { x1: p0, y1: p0, x2: pfpri, y2: p0 + rfov.to_scaled() - quarter });
    lines
}

/// The two canonical edge segments of an FOV node `body`, identical for all
/// octants: the two faces of the tile nearest the origin, from the near
/// corner `(0, 0)` to `(0, 1)` and to `(1, 0)` in `(pri, sec)` space.
///
/// These segments are offset by `(dpri, dsec)` of each node in the FOV
/// octant and tested against the sightlines.
///
/// _Note:_ in this context, `Line.x` and `Line.y` refer to `pri` and `sec`,
/// respectively.
pub fn body_lines() -> (r: (Line, Line))
    ensures
        r.0 == body_line_sec(),
        r.1 == body_line_pri(),
{
    (
        Line { x1: 0, y1: 0, x2: 0, y2: SCALE },
        Line { x1: 0, y1: 0, x2: SCALE, y2: 0 },
    )
}

/// The near tile face along the secondary axis: `(0, 0)` to `(0, 1)` in
/// `(pri, sec)` tile space.
pub open spec fn body_line_sec() -> Line {
    Line { x1: 0, y1: 0, x2: 0, y2: SCALE as i64 }
}

/// The near tile face along the primary axis: `(0, 0)` to `(1, 0)` in
/// `(pri, sec)` tile space.
pub open spec fn body_line_pri() -> Line {
    Line { x1: 0, y1: 0, x2: SCALE as i64, y2: 0 }
}

/// The north-facing wall segment of a tile, in the `(pri, sec)` orientation
/// of the given octant.
pub open spec fn wall_n_line_spec(octant: Octant) -> Line {
    match octant {
        Octant::O1 => Line { x1: 0, y1: SCALE as i64, x2: SCALE as i64, y2: SCALE as i64 },
        Octant::O2 => Line { x1: SCALE as i64, y1: 0, x2: SCALE as i64, y2: SCALE as i64 },
        Octant::O3 => Line { x1: SCALE as i64, y1: 0, x2: SCALE as i64, y2: SCALE as i64 },
        Octant::O4 => Line { x1: 0, y1: SCALE as i64, x2: SCALE as i64, y2: SCALE as i64 },
        Octant::O5 => Line { x1: 0, y1: 0, x2: SCALE as i64, y2: 0 },
        Octant::O6 => Line { x1: 0, y1: 0, x2: 0, y2: SCALE as i64 },
        Octant::O7 => Line { x1: 0, y1: 0, x2: 0, y2: SCALE as i64 },
        Octant::O8 => Line { x1: 0, y1: 0, x2: SCALE as i64, y2: 0 },
    }
}

/// The west-facing wall segment of a tile, in the `(pri, sec)` orientation
/// of the given octant.
pub open spec fn wall_w_line_spec(octant: Octant) -> Line {
    match octant {
        Octant::O1 => Line { x1: 0, y1: 0, x2: 0, y2: SCALE as i64 },
        Octant::O2 => Line { x1: 0, y1: 0, x2: SCALE as i64, y2: 0 },
        Octant::O3 => Line { x1: 0, y1: SCALE as i64, x2: SCALE as i64, y2: SCALE as i64 },
        Octant::O4 => Line { x1: SCALE as i64, y1: 0, x2: SCALE as i64, y2: SCALE as i64 },
        Octant::O5 => Line { x1: SCALE as i64, y1: 0, x2: SCALE as i64, y2: SCALE as i64 },
        Octant::O6 => Line { x1: 0, y1: SCALE as i64, x2: SCALE as i64, y2: SCALE as i64 },
        Octant::O7 => Line { x1: 0, y1: 0, x2: SCALE as i64, y2: 0 },
        Octant::O8 => Line { x1: 0, y1: 0, x2: 0, y2: SCALE as i64 },
    }
}

/// Generates an FOV node's north wall segment (`wall_n`) based on octant.
///
/// These segments are offset by `(dpri, dsec)` of each node in the FOV
/// octant and tested against the sightlines.
///
/// _Note:_ in this context, `Line.x` and `Line.y` refer to `pri` and `sec`,
/// respectively.
pub fn wall_n_line(octant: Octant) -> (l: Line)
    ensures
        l == wall_n_line_spec(octant),
{
    match octant {
        Octant::O1 => Line { x1: 0, y1: SCALE, x2: SCALE, y2: SCALE },
        Octant::O2 => Line { x1: SCALE, y1: 0, x2: SCALE, y2: SCALE },
        Octant::O3 => Line { x1: SCALE, y1: 0, x2: SCALE, y2: SCALE },
        Octant::O4 => Line { x1: 0, y1: SCALE, x2: SCALE, y2: SCALE },
        Octant::O5 => Line { x1: 0, y1: 0, x2: SCALE, y2: 0 },
        Octant::O6 => Line { x1: 0, y1: 0, x2: 0, y2: SCALE },
        Octant::O7 => Line { x1: 0, y1: 0, x2: 0, y2: SCALE },
        Octant::O8 => Line { x1: 0, y1: 0, x2: SCALE, y2: 0 },
    }
}

/// Generates an FOV node's west wall segment (`wall_w`) based on octant.
///
/// These segments are offset by `(dpri, dsec)` of each node in the FOV
/// octant and tested against the sightlines.
///
/// _Note:_ in this context, `Line.x` and `Line.y` refer to `pri` and `sec`,
/// respectively.
pub fn wall_w_line(octant: Octant) -> (l: Line)
    ensures
        l == wall_w_line_spec(octant),
{
    match octant {
        Octant::O1 => Line { x1: 0, y1: 0, x2: 0, y2: SCALE },
        Octant::O2 => Line { x1: 0, y1: 0, x2: SCALE, y2: 0 },
        Octant::O3 => Line { x1: 0, y1: SCALE, x2: SCALE, y2: SCALE },
        Octant::O4 => Line { x1: SCALE, y1: 0, x2: SCALE, y2: SCALE },
        Octant::O5 => Line { x1: SCALE, y1: 0, x2: SCALE, y2: SCALE },
        Octant::O6 => Line { x1: 0, y1: SCALE, x2: SCALE, y2: SCALE },
        Octant::O7 => Line { x1: 0, y1: 0, x2: SCALE, y2: 0 },
        Octant::O8 => Line { x1: 0, y1: 0, x2: 0, y2: SCALE },
    }
}

/// Octant pairs share wall-edge geometry: the north-wall table is equal on
/// the pairs (O1, O4), (O2, O3), (O5, O8), (O6, O7), and the west-wall table
/// on the pairs (O1, O8), (O2, O7), (O3, O6), (O4, O5).
pub proof fn lemma_wall_line_octant_pairs()
    ensures
        wall_n_line_spec(Octant::O1) == wall_n_line_spec(Octant::O4),
        wall_n_line_spec(Octant::O2) == wall_n_line_spec(Octant::O3),
        wall_n_line_spec(Octant::O5) == wall_n_line_spec(Octant::O8),
        wall_n_line_spec(Octant::O6) == wall_n_line_spec(Octant::O7),
        wall_w_line_spec(Octant::O1) == wall_w_line_spec(Octant::O8),
        wall_w_line_spec(Octant::O2) == wall_w_line_spec(Octant::O7),
        wall_w_line_spec(Octant::O3) == wall_w_line_spec(Octant::O6),
        wall_w_line_spec(Octant::O4) == wall_w_line_spec(Octant::O5),
{
}

} // verus!
