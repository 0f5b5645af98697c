//! Non-maximum suppression: an edge survives only where no neighbour along
//! its quantized gradient direction has a strictly greater magnitude.

use vstd::prelude::*;
use convolve2d::DynamicMatrix;
use crate::binary64::{axis_step, is_positive, is_zero, less, lt, rank, step};
use crate::edge::{zero_edge, EdgeError, EdgeVector};
use crate::grid::{neighbour, neighbour_index, on_grid};
use crate::raster::{edge_cells, edge_data, edge_height, edge_width, new_edge_raster};

verus! {

/// The neighbour of pixel `index` at distance `d` along its quantized
/// direction: `d` rows if `|x| > 0.25`, `d` columns if `|y| > 0.25`, each
/// signed by the component.
pub open spec fn directed_neighbour(edges: Seq<EdgeVector>, width: int, index: int, d: int) -> int {
    neighbour(
        index,
        width,
        axis_step(edges[index].x) * d,
        axis_step(edges[index].y) * d,
    )
}

/// Whether the neighbour at distance `d` lies on the grid and has a strictly
/// greater magnitude than pixel `index`.
pub open spec fn outranked_at(edges: Seq<EdgeVector>, width: int, index: int, d: int) -> bool {
    let j = directed_neighbour(edges, width, index, d);
    on_grid(j, edges.len() as int) && less(edges[index].magnitude, edges[j].magnitude)
}

/// Whether no neighbour at a distance in `[-range, range)` outranks pixel
/// `index`.
pub open spec fn is_local_max(edges: Seq<EdgeVector>, width: int, index: int, range: int) -> bool {
    forall|d: int| -range <= d < range ==> !#[trigger] outranked_at(edges, width, index, d)
}

/// The output of suppression at pixel `i`: the input edge where its magnitude
/// is zero or it is a local maximum, the zero edge otherwise.
pub open spec fn suppressed_at(edges: Seq<EdgeVector>, width: int, range: int, i: int) -> EdgeVector {
    if rank(edges[i].magnitude) == 0 || is_local_max(edges, width, i, range) {
        edges[i]
    } else {
        zero_edge()
    }
}

/// Suppression of a whole row-major raster, every pixel read from the input.
pub open spec fn suppressed(edges: Seq<EdgeVector>, width: int, range: int) -> Seq<EdgeVector> {
    Seq::new(edges.len(), |i: int| suppressed_at(edges, width, range, i))
}

/// The number of cells with a magnitude greater than zero.
pub open spec fn count_nonzero(edges: Seq<EdgeVector>) -> nat
    decreases edges.len(),
{
    if edges.len() == 0 {
        0
    } else {
        count_nonzero(edges.drop_last()) + if is_positive(edges.last().magnitude) {
            1nat
        } else {
            0nat
        }
    }
}

/// Where every positive magnitude of `a` is matched by a positive magnitude
/// of `b` at the same cell, `a` has at most as many positive cells as `b`.
pub proof fn lemma_count_nonzero_pointwise(a: Seq<EdgeVector>, b: Seq<EdgeVector>)
    requires
        a.len() == b.len(),
        forall|i: int|
            0 <= i < a.len() && is_positive(#[trigger] a[i].magnitude) ==> is_positive(
                b[i].magnitude,
            ),
    ensures
        count_nonzero(a) <= count_nonzero(b),
    decreases a.len(),
{
    if a.len() > 0 {
        let (a1, b1) = (a.drop_last(), b.drop_last());
        assert forall|i: int|
            0 <= i < a1.len() && is_positive(#[trigger] a1[i].magnitude) implies is_positive(
                b1[i].magnitude,
            ) by {
            assert(a1[i] == a[i] && b1[i] == b[i]);
        }
        lemma_count_nonzero_pointwise(a1, b1);
        assert(is_positive(a.last().magnitude) ==> is_positive(b.last().magnitude)) by {
            assert(a.last() == a[a.len() - 1]);
        }
    }
}

/// Suppression never rescales a magnitude: each output magnitude is zero or
/// the input magnitude of that pixel, so the output has no more positive
/// cells than the input.
pub proof fn lemma_suppression_only_zeroes(edges: Seq<EdgeVector>, width: int, range: int)
    ensures
        suppressed(edges, width, range).len() == edges.len(),
        forall|i: int|
            0 <= i < edges.len() ==> (#[trigger] suppressed(edges, width, range)[i]).magnitude == 0
                || suppressed(edges, width, range)[i].magnitude == edges[i].magnitude,
        count_nonzero(suppressed(edges, width, range)) <= count_nonzero(edges),
{
    let out = suppressed(edges, width, range);
    assert forall|i: int|
        0 <= i < out.len() && is_positive(#[trigger] out[i].magnitude) implies is_positive(
            edges[i].magnitude,
        ) by {
        assert(out[i] == suppressed_at(edges, width, range, i));
    }
    lemma_count_nonzero_pointwise(out, edges);
}

/// Whether pixel `index` of `edges` is a local maximum along its direction
/// within `distance_range`.
pub fn is_max(edges: &[EdgeVector], width: usize, index: usize, distance_range: usize) -> (r: bool)
    requires
        index < edges@.len(),
        width > 0,
    ensures
        r == is_local_max(edges@, width as int, index as int, distance_range as int),
{
    let edge = edges[index];
    let step_row = step(edge.x) as i128;
    let step_col = step(edge.y) as i128;
    let range = distance_range as i128;
    let mut distance: i128 = -range;
    while distance < range
        invariant
            -range <= distance <= range,
            range == distance_range,
            index < edges@.len(),
            width > 0,
            edge == edges@[index as int],
            step_row == axis_step(edge.x),
            step_col == axis_step(edge.y),
            forall|d: int|
                -range <= d < distance ==> !#[trigger] outranked_at(
                    edges@,
                    width as int,
                    index as int,
                    d,
                ),
        decreases range - distance,
    {
        let near = neighbour_index(
            index,
            width,
            edges.len(),
            step_row * distance,
            step_col * distance,
        );
        if let Some(j) = near {
            if lt(edge.magnitude, edges[j].magnitude) {
                assert(outranked_at(edges@, width as int, index as int, distance as int));
                return false;
            }
        }
        distance = distance + 1;
    }
    true
}

/// Suppresses every edge that a neighbour along its quantized direction, at a
/// distance in `[-distance_range, distance_range)`, outranks; zero edges and
/// local maxima pass unchanged. Every comparison reads the input raster.
///
/// Fails with `DimensionMismatch` where the raster does not hold
/// `width * height` cells.
pub fn perform_nonmax_suppression(
    width: usize,
    height: usize,
    drog_edges: &DynamicMatrix<EdgeVector>,
    distance_range: usize,
) -> (r: Result<DynamicMatrix<EdgeVector>, EdgeError>)
    ensures
        match r {
            Ok(m) => width * height == edge_cells(*drog_edges).len() && edge_cells(m) == suppressed(
                edge_cells(*drog_edges),
                width as int,
                distance_range as int,
            ) && edge_width(m) == width && edge_height(m) == height,
            Err(e) => width * height != edge_cells(*drog_edges).len() && e
                == (EdgeError::DimensionMismatch {
                width,
                height,
                len: edge_cells(*drog_edges).len() as usize,
            }),
        },
{
    let edges = edge_data(drog_edges);
    let image_size = match width.checked_mul(height) {
        Some(n) if n == edges.len() => n,
        _ => {
            return Err(EdgeError::DimensionMismatch { width, height, len: edges.len() });
        },
    };
    let ghost input = edges@;
    let mut out: Vec<EdgeVector> = Vec::with_capacity(image_size);
    for index in 0..image_size
        invariant
            image_size == input.len(),
            input == edges@,
            width * height == image_size,
            out@.len() == index,
            forall|i: int|
                0 <= i < index ==> out@[i] == suppressed_at(
                    input,
                    width as int,
                    distance_range as int,
                    i,
                ),
    {
        let edge = edges[index];
        assert(width > 0) by (nonlinear_arith)
            requires
                index < width * height,
        ;
        if is_zero(edge.magnitude) || is_max(
            edges,
            width,
            index,
            distance_range,
        ) {
            out.push(edge);
        } else {
            out.push(EdgeVector::zero());
        }
    }
    assert(out@ =~= suppressed(input, width as int, distance_range as int));
    match new_edge_raster(width, height, out) {
        Some(m) => Ok(m),
        None => Err(EdgeError::DimensionMismatch { width, height, len: edges.len() }),
    }
}

} // verus!
