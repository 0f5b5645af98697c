//! Rasters are `convolve2d::DynamicMatrix` values: a width, a height and the
//! cells in row-major order.

use vstd::prelude::*;
use convolve2d::{DynamicMatrix, Matrix};
use crate::edge::{EdgeVector, ThresholdedEdge};

verus! {

#[verifier::external_type_specification]
#[verifier::external_body]
#[verifier::reject_recursive_types(T)]
pub struct ExDynamicMatrix<T>(DynamicMatrix<T>);

/// The cells of a raster of edge vectors, row by row.
pub uninterp spec fn edge_cells(m: DynamicMatrix<EdgeVector>) -> Seq<EdgeVector>;

/// The width of a raster of edge vectors.
pub uninterp spec fn edge_width(m: DynamicMatrix<EdgeVector>) -> usize;

/// The height of a raster of edge vectors.
pub uninterp spec fn edge_height(m: DynamicMatrix<EdgeVector>) -> usize;

/// The cells of a raster of classes, row by row.
pub uninterp spec fn class_cells(m: DynamicMatrix<ThresholdedEdge>) -> Seq<ThresholdedEdge>;

/// The width of a raster of classes.
pub uninterp spec fn class_width(m: DynamicMatrix<ThresholdedEdge>) -> usize;

/// The height of a raster of classes.
pub uninterp spec fn class_height(m: DynamicMatrix<ThresholdedEdge>) -> usize;

/// Relies on `DynamicMatrix::get_data` (its `Matrix` impl): the slice of the
/// stored cells.
#[verifier::external_body]
pub(crate) fn edge_data(m: &DynamicMatrix<EdgeVector>) -> (r: &[EdgeVector])
    ensures
        r@ == edge_cells(*m),
{
    m.get_data()
}

/// Relies on `DynamicMatrix::new`: `Some` exactly when
/// `width * height == data.len()`, and then a matrix that stores `data`,
/// `width` and `height` as given. The product must not overflow.
#[verifier::external_body]
pub(crate) fn new_edge_raster(width: usize, height: usize, data: Vec<EdgeVector>) -> (r: Option<
    DynamicMatrix<EdgeVector>,
>)
    requires
        width * height <= usize::MAX,
    ensures
        r.is_some() <==> width * height == data@.len(),
        r matches Some(m) ==> edge_cells(m) == data@ && edge_width(m) == width && edge_height(m)
            == height,
{
    DynamicMatrix::new(width, height, data)
}

/// Relies on `DynamicMatrix::new`: `Some` exactly when
/// `width * height == data.len()`, and then a matrix that stores `data`,
/// `width` and `height` as given. The product must not overflow.
#[verifier::external_body]
pub(crate) fn new_class_raster(width: usize, height: usize, data: Vec<ThresholdedEdge>) -> (r:
    Option<DynamicMatrix<ThresholdedEdge>>)
    requires
        width * height <= usize::MAX,
    ensures
        r.is_some() <==> width * height == data@.len(),
        r matches Some(m) ==> class_cells(m) == data@ && class_width(m) == width && class_height(m)
            == height,
{
    DynamicMatrix::new(width, height, data)
}

} // verus!
