//! Canny-style edge detection over single-channel rasters: non-maximum
//! suppression and two-stage hysteresis thresholding of gradient edge
//! vectors, together with the search-position logic of block-matching
//! motion estimators.
//!
//! Real-valued samples cross this library's boundary as IEEE-754 binary64
//! bit patterns (`f64::to_bits`), so that every decision taken on them is a
//! verified integer computation.

pub mod binary64;
pub mod edge;
pub mod kernel;
pub mod raster;
pub mod grid;
pub mod nonmax;
pub mod hysteresis;
pub mod bma;
