//! Flat-index neighbour lookups on a row-major grid.
//!
//! A neighbour is found by adding row and column offsets to the pixel's row
//! and column and flattening the result again. Only the flat index is checked
//! against the grid, so an offset column may wrap into an adjacent row.

use vstd::prelude::*;

verus! {

/// The flat index reached from pixel `index` by moving `dr` rows and `dc`
/// columns on a grid `width` cells wide.
pub open spec fn neighbour(index: int, width: int, dr: int, dc: int) -> int {
    (index / width + dr) * width + (index % width + dc)
}

/// Whether a flat index lies on a grid of `len` cells.
pub open spec fn on_grid(j: int, len: int) -> bool {
    0 <= j < len
}

/// The neighbour of `index` at offsets `(dr, dc)`, or `None` where its flat
/// index falls outside `[0, len)`.
pub fn neighbour_index(index: usize, width: usize, len: usize, dr: i128, dc: i128) -> (r: Option<
    usize,
>)
    requires
        index < len,
        width > 0,
        -0x1_0000_0000_0000_0000 <= dr <= 0x1_0000_0000_0000_0000,
        -0x1_0000_0000_0000_0000 <= dc <= 0x1_0000_0000_0000_0000,
    ensures
        match r {
            Some(j) => on_grid(neighbour(index as int, width as int, dr as int, dc as int), len as int)
                && j == neighbour(index as int, width as int, dr as int, dc as int),
            None => !on_grid(
                neighbour(index as int, width as int, dr as int, dc as int),
                len as int,
            ),
        },
{
    let row = (index / width) as i128;
    let col = (index % width) as i128;
    let near_row = row + dr;
    let near_col = col + dc;
    match near_row.checked_mul(width as i128) {
        None => None,
        Some(start) => match start.checked_add(near_col) {
            None => None,
            Some(near) => {
                if near < 0 || near >= len as i128 {
                    None
                } else {
                    Some(near as usize)
                }
            },
        },
    }
}

} // verus!
