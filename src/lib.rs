//! Verified core of a ruler for fast, city-scale geodesic approximations.
//!
//! The numeric work of the ruler runs on `f64`; this crate holds the parts of
//! it that are exact: the table of distance units as exact ratios, the integer
//! arithmetic of map tiles, the choice of the nearest segment of a line, and the
//! ordering and assembly of a slice of a line between two cuts.

mod line;
mod tile;
mod unit;

pub use line::{first_min_index, lemma_slice_swap, lemma_slice_whole_line, slice_line, Cut};
pub use tile::{tile_count, tile_row_ratio};
pub use unit::DistanceUnit;
