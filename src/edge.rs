//! The per-pixel records that flow between the edge stages.

use vstd::prelude::*;

verus! {

/// A gradient edge vector: the calibrated gradient `(x, y)` (each response
/// scaled by `1/sqrt(2)`) and its Euclidean norm, each as a binary64 pattern.
///
/// `x` lies along the row axis and `y` along the column axis. The zero edge
/// has all three patterns zero: its direction is the `(0, 0)` sentinel.
#[derive(Clone, Copy, Debug, PartialEq, Eq, Structural)]
pub struct EdgeVector {
    pub x: u64,
    pub y: u64,
    pub magnitude: u64,
}

/// The zero edge, as a value.
pub open spec fn zero_edge() -> EdgeVector {
    EdgeVector { x: 0, y: 0, magnitude: 0 }
}

impl EdgeVector {
    /// The zero edge: no gradient, sentinel direction.
    pub fn zero() -> (r: EdgeVector)
        ensures
            r == zero_edge(),
    {
        EdgeVector { x: 0, y: 0, magnitude: 0 }
    }

    /// The magnitude pattern.
    pub fn get_magnitude(&self) -> (r: u64)
        ensures
            r == self.magnitude,
    {
        self.magnitude
    }

    /// The calibrated gradient `(x, y)`, which the magnitude scales the unit
    /// direction back into.
    pub fn dir(&self) -> (r: (u64, u64))
        ensures
            r == (self.x, self.y),
    {
        (self.x, self.y)
    }
}

/// The hysteresis class of a pixel.
#[derive(Clone, Copy, Debug, PartialEq, Eq, Structural)]
pub enum ThresholdedEdge {
    STRONG,
    WEAK,
    NULL,
}

/// Why an edge stage refused its input.
#[derive(Clone, Copy, Debug, PartialEq, Eq, Structural)]
pub enum EdgeError {
    /// The raster holds `len` cells where `width * height` were expected.
    DimensionMismatch { width: usize, height: usize, len: usize },
    /// The weak threshold is not at most the strong one (or one is NaN).
    InvalidThresholds { weak: u64, strong: u64 },
    /// A kernel of size 0, or a sigma that is not greater than zero.
    InvalidKernel { size: usize, sigma: u64 },
}

} // verus!
