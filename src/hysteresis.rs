//! Hysteresis thresholding: a per-pixel classification by two thresholds,
//! then one bounded-radius promotion pass that reads only that snapshot.

use vstd::prelude::*;
use convolve2d::DynamicMatrix;
use crate::binary64::{at_most, le, less, lt};
use crate::edge::{EdgeError, EdgeVector, ThresholdedEdge};
use crate::grid::{neighbour, neighbour_index, on_grid};
use crate::raster::{class_cells, class_height, class_width, edge_cells, edge_data, new_class_raster};

verus! {

/// The class of a magnitude: NULL below `weak`, STRONG above `strong`, WEAK
/// otherwise.
pub open spec fn class_of(m: u64, weak: u64, strong: u64) -> ThresholdedEdge {
    if less(m, weak) {
        ThresholdedEdge::NULL
    } else if less(strong, m) {
        ThresholdedEdge::STRONG
    } else {
        ThresholdedEdge::WEAK
    }
}

/// The first stage: every pixel classified by its own magnitude.
pub open spec fn first_stage(edges: Seq<EdgeVector>, weak: u64, strong: u64) -> Seq<ThresholdedEdge> {
    Seq::new(edges.len(), |i: int| class_of(edges[i].magnitude, weak, strong))
}

/// Whether the window of offsets `[-radius, radius)` on both axes around
/// pixel `index` reaches a STRONG cell of `classes`.
pub open spec fn strong_near(classes: Seq<ThresholdedEdge>, width: int, index: int, radius: int) -> bool {
    exists|dr: int, dc: int|
        -radius <= dr < radius && -radius <= dc < radius && #[trigger] strong_at(
            classes,
            neighbour(index, width, dr, dc),
        )
}

/// Whether flat index `j` is on the grid and holds a STRONG cell.
pub open spec fn strong_at(classes: Seq<ThresholdedEdge>, j: int) -> bool {
    on_grid(j, classes.len() as int) && classes[j] == ThresholdedEdge::STRONG
}

/// The second stage at pixel `i`: a WEAK pixel becomes STRONG where its
/// window reaches a STRONG pixel of the snapshot and NULL otherwise; other
/// classes pass unchanged.
pub open spec fn promoted_at(classes: Seq<ThresholdedEdge>, width: int, radius: int, i: int) -> ThresholdedEdge {
    if classes[i] == ThresholdedEdge::WEAK {
        if strong_near(classes, width, i, radius) {
            ThresholdedEdge::STRONG
        } else {
            ThresholdedEdge::NULL
        }
    } else {
        classes[i]
    }
}

/// The second stage over the whole snapshot.
pub open spec fn second_stage(classes: Seq<ThresholdedEdge>, width: int, radius: int) -> Seq<ThresholdedEdge> {
    Seq::new(classes.len(), |i: int| promoted_at(classes, width, radius, i))
}

/// Both stages.
pub open spec fn hysteresis(edges: Seq<EdgeVector>, width: int, weak: u64, strong: u64, radius: int) -> Seq<ThresholdedEdge> {
    second_stage(first_stage(edges, weak, strong), width, radius)
}

/// Hysteresis only promotes: a pixel STRONG in the first stage is STRONG in
/// the output, and a pixel STRONG in the output was STRONG in the first stage
/// or was WEAK with a STRONG first-stage pixel in its window.
pub proof fn lemma_hysteresis_monotone(
    edges: Seq<EdgeVector>,
    width: int,
    weak: u64,
    strong: u64,
    radius: int,
)
    ensures
        hysteresis(edges, width, weak, strong, radius).len() == edges.len(),
        forall|i: int|
            0 <= i < edges.len() && first_stage(edges, weak, strong)[i] == ThresholdedEdge::STRONG
                ==> #[trigger] hysteresis(edges, width, weak, strong, radius)[i]
                == ThresholdedEdge::STRONG,
        forall|i: int|
            0 <= i < edges.len() && #[trigger] hysteresis(edges, width, weak, strong, radius)[i]
                == ThresholdedEdge::STRONG ==> first_stage(edges, weak, strong)[i]
                == ThresholdedEdge::STRONG || strong_near(
                first_stage(edges, weak, strong),
                width,
                i,
                radius,
            ),
{
}

/// With a radius of zero the window is empty: no pixel is promoted, so the
/// output is STRONG exactly where the magnitude exceeds the strong threshold,
/// and NULL everywhere else.
pub proof fn lemma_zero_radius_is_thresholding(edges: Seq<EdgeVector>, width: int, weak: u64, strong: u64)
    ensures
        hysteresis(edges, width, weak, strong, 0).len() == edges.len(),
        forall|i: int|
            0 <= i < edges.len() ==> #[trigger] hysteresis(edges, width, weak, strong, 0)[i] == if class_of(
                edges[i].magnitude,
                weak,
                strong,
            ) == ThresholdedEdge::STRONG {
                ThresholdedEdge::STRONG
            } else {
                ThresholdedEdge::NULL
            },
{
    assert forall|i: int| 0 <= i < edges.len() implies !strong_near(
        first_stage(edges, weak, strong),
        width,
        i,
        0,
    ) by {}
}

/// The class of one magnitude.
pub fn classify(magnitude: u64, weak: u64, strong: u64) -> (r: ThresholdedEdge)
    ensures
        r == class_of(magnitude, weak, strong),
{
    if lt(magnitude, weak) {
        ThresholdedEdge::NULL
    } else if lt(strong, magnitude) {
        ThresholdedEdge::STRONG
    } else {
        ThresholdedEdge::WEAK
    }
}

/// Whether the window `[-radius, radius)` around `index` reaches a STRONG cell.
pub fn has_strong_neighbour(classes: &[ThresholdedEdge], width: usize, index: usize, radius: usize) -> (r: bool)
    requires
        index < classes@.len(),
        width > 0,
    ensures
        r == strong_near(classes@, width as int, index as int, radius as int),
{
    let size = radius as i128;
    let mut row_offset: i128 = -size;
    while row_offset < size
        invariant
            -size <= row_offset <= size,
            size == radius,
            index < classes@.len(),
            width > 0,
            forall|dr: int, dc: int|
                -size <= dr < row_offset && -size <= dc < size ==> !#[trigger] strong_at(
                    classes@,
                    neighbour(index as int, width as int, dr, dc),
                ),
        decreases size - row_offset,
    {
        let mut col_offset: i128 = -size;
        while col_offset < size
            invariant
                -size <= row_offset < size,
                -size <= col_offset <= size,
                size == radius,
                index < classes@.len(),
                width > 0,
                forall|dr: int, dc: int|
                    -size <= dr < row_offset && -size <= dc < size ==> !#[trigger] strong_at(
                        classes@,
                        neighbour(index as int, width as int, dr, dc),
                    ),
                forall|dc: int|
                    -size <= dc < col_offset ==> !#[trigger] strong_at(
                        classes@,
                        neighbour(index as int, width as int, row_offset as int, dc),
                    ),
            decreases size - col_offset,
        {
            if let Some(j) = neighbour_index(index, width, classes.len(), row_offset, col_offset) {
                if classes[j] == ThresholdedEdge::STRONG {
                    assert(strong_at(
                        classes@,
                        neighbour(index as int, width as int, row_offset as int, col_offset as int),
                    ));
                    return true;
                }
            }
            col_offset = col_offset + 1;
        }
        row_offset = row_offset + 1;
    }
    false
}

/// Classifies every pixel STRONG, WEAK or NULL by `weak_edge_threshold` and
/// `strong_edge_threshold`, then turns each WEAK pixel STRONG where a pixel
/// at row and column offsets in `[-neighbourhood_size, neighbourhood_size)`
/// was STRONG in that first classification, and NULL otherwise.
///
/// Fails with `InvalidThresholds` unless the weak threshold is at most the
/// strong one, and then with `DimensionMismatch` where the raster does not
/// hold `width * height` cells.
pub fn perform_hysteresis_thresholding(
    width: usize,
    height: usize,
    input_edges: &DynamicMatrix<EdgeVector>,
    weak_edge_threshold: u64,
    strong_edge_threshold: u64,
    neighbourhood_size: usize,
) -> (r: Result<DynamicMatrix<ThresholdedEdge>, EdgeError>)
    ensures
        match r {
            Ok(m) => at_most(weak_edge_threshold, strong_edge_threshold) && width * height
                == edge_cells(*input_edges).len() && class_cells(m) == hysteresis(
                edge_cells(*input_edges),
                width as int,
                weak_edge_threshold,
                strong_edge_threshold,
                neighbourhood_size as int,
            ) && class_width(m) == width && class_height(m) == height,
            Err(EdgeError::InvalidThresholds { weak, strong }) => !at_most(
                weak_edge_threshold,
                strong_edge_threshold,
            ) && weak == weak_edge_threshold && strong == strong_edge_threshold,
            Err(EdgeError::DimensionMismatch { width: w, height: h, len }) => at_most(
                weak_edge_threshold,
                strong_edge_threshold,
            ) && width * height != edge_cells(*input_edges).len() && w == width && h == height
                && len == edge_cells(*input_edges).len(),
            Err(EdgeError::InvalidKernel { .. }) => false,
        },
{
    if !le(weak_edge_threshold, strong_edge_threshold) {
        return Err(
            EdgeError::InvalidThresholds {
                weak: weak_edge_threshold,
                strong: strong_edge_threshold,
            },
        );
    }
    let edges = edge_data(input_edges);
    let image_size = match width.checked_mul(height) {
        Some(n) if n == edges.len() => n,
        _ => {
            return Err(EdgeError::DimensionMismatch { width, height, len: edges.len() });
        },
    };
    let ghost input = edges@;
    let mut thresholds: Vec<ThresholdedEdge> = Vec::with_capacity(image_size);
    for index in 0..image_size
        invariant
            image_size == input.len(),
            input == edges@,
            thresholds@.len() == index,
            forall|i: int|
                0 <= i < index ==> thresholds@[i] == class_of(
                    input[i].magnitude,
                    weak_edge_threshold,
                    strong_edge_threshold,
                ),
    {
        thresholds.push(classify(edges[index].magnitude, weak_edge_threshold, strong_edge_threshold));
    }
    let ghost snapshot = thresholds@;
    assert(snapshot =~= first_stage(input, weak_edge_threshold, strong_edge_threshold));
    let mut out: Vec<ThresholdedEdge> = Vec::with_capacity(image_size);
    for index in 0..image_size
        invariant
            image_size == snapshot.len(),
            snapshot == thresholds@,
            width * height == image_size,
            out@.len() == index,
            forall|i: int|
                0 <= i < index ==> out@[i] == promoted_at(
                    snapshot,
                    width as int,
                    neighbourhood_size as int,
                    i,
                ),
    {
        let class = match thresholds[index] {
            ThresholdedEdge::STRONG => ThresholdedEdge::STRONG,
            ThresholdedEdge::WEAK => {
                assert(width > 0) by (nonlinear_arith)
                    requires
                        index < width * height,
                ;
                if has_strong_neighbour(thresholds.as_slice(), width, index, neighbourhood_size) {
                    ThresholdedEdge::STRONG
                } else {
                    ThresholdedEdge::NULL
                }
            },
            ThresholdedEdge::NULL => ThresholdedEdge::NULL,
        };
        out.push(class);
    }
    assert(out@ =~= hysteresis(
        input,
        width as int,
        weak_edge_threshold,
        strong_edge_threshold,
        neighbourhood_size as int,
    ));
    match new_class_raster(width, height, out) {
        Some(m) => Ok(m),
        None => Err(EdgeError::DimensionMismatch { width, height, len: edges.len() }),
    }
}

} // verus!
