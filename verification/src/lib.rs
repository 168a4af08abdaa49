//! Precomputed field-of-view (FOV) visibility data for 2D grid maps.
//!
//! For a chosen visibility radius and angular quantization, the library
//! generates a canonical set of sightline segments per octant, then for each
//! relative tile position computes a bitmask recording which sightlines pass
//! through that tile's geometry (the tile body, and in the Standard variant
//! its north and west walls). A runtime query folds those bitmasks together
//! along each octant to decide which map tiles are visible from an origin.
//!
//! All geometry is carried in fixed-point tile-space coordinates: one tile
//! spans [`math::SCALE`] units, so integer multiples of `SCALE` are tile
//! corners and odd multiples of `SCALE / 2` are tile centers. Every
//! intersection test is exact integer arithmetic.

pub mod builder;
pub mod fov;
pub mod fovcalc;
pub mod fovmap;
pub mod maps;
pub mod math;
pub mod standard;

pub use builder::build_fov_nodes_q16;
pub use builder::FovNode16;
pub use builder::FovOctant16;
pub use fov::FovLines;
pub use fov::FovRadius;
pub use fov::Octant;
pub use fov::QFactor;
pub use fov::VisibleTile;
pub use fovcalc::fov_calc;
pub use fovcalc::get_visible_tiles;
pub use fovmap::FovError;
pub use fovmap::FovMap16;
pub use maps::Coords;
pub use maps::TileMap;
pub use math::Delta;
pub use math::GeomError;
pub use math::IsectPoint;
pub use math::Line;
pub use math::Point;
pub use math::Vector;
pub use standard::build_fov_nodes_std_q16;
pub use standard::FovNodeStd16;
