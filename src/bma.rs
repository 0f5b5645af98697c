//! Block-matching motion estimation: where each matcher looks for the block
//! of a target frame that best predicts an anchor block, and which candidate
//! it keeps.
//!
//! Positions are `(x, y)` pixel coordinates of a block's top-left corner.
//! Cropping frames and measuring prediction errors is left to the caller: the
//! errors come back as binary64 patterns, one per candidate, in order.

use vstd::prelude::*;
use itertools::Itertools;
use crate::binary64::{is_nan, less, lt};

verus! {

/// Whether `(px, py)` lies inside a frame of `width` by `height` pixels.
pub open spec fn inside(px: int, py: int, width: int, height: int) -> bool {
    0 <= px < width && 0 <= py < height
}

/// The positions `(x + dx, y + dy)`, for the offsets `(dx, dy)` in order,
/// that lie inside the frame.
pub open spec fn positions_in_frame(
    x: int,
    y: int,
    offsets: Seq<(i32, i32)>,
    width: int,
    height: int,
) -> Seq<(u32, u32)>
    decreases offsets.len(),
{
    if offsets.len() == 0 {
        Seq::empty()
    } else {
        let prev = positions_in_frame(x, y, offsets.drop_last(), width, height);
        let (dx, dy) = offsets.last();
        if inside(x + dx, y + dy, width, height) {
            prev.push(((x + dx) as u32, (y + dy) as u32))
        } else {
            prev
        }
    }
}

/// Every offset pair of `[-s, s)` on both axes: `dx` outer, `dy` inner, both
/// increasing.
pub open spec fn window_offsets(s: int) -> Seq<(i32, i32)> {
    Seq::new((4 * s * s) as nat, |k: int| ((-s + k / (2 * s)) as i32, (-s + k % (2 * s)) as i32))
}

/// The nine offsets of a three-step search at step `r`: rows of `dy` in
/// `-r, 0, r`, each with `dx` in `-r, 0, r`.
pub open spec fn step_offsets(r: i32) -> Seq<(i32, i32)> {
    seq![
        ((-r) as i32, (-r) as i32), (0i32, (-r) as i32), (r, (-r) as i32),
        ((-r) as i32, 0i32), (0i32, 0i32), (r, 0i32),
        ((-r) as i32, r), (0i32, r), (r, r),
    ]
}

/// Whether candidate `i` has the least error, none before it having as
/// little: the first minimum.
pub open spec fn is_first_min(errors: Seq<u64>, i: int) -> bool {
    &&& 0 <= i < errors.len()
    &&& forall|j: int| 0 <= j < errors.len() ==> !less(#[trigger] errors[j], errors[i])
    &&& forall|j: int| 0 <= j < i ==> less(errors[i], #[trigger] errors[j])
}

/// Relies on itertools' `cartesian_product` of two integer ranges, collected:
/// each item of the first range paired with each of the second, in
/// lexicographic order.
#[verifier::external_body]
fn window_offsets_of(s: i32) -> (r: Vec<(i32, i32)>)
    requires
        0 <= s <= 0xffff,
        4 * s * s <= usize::MAX,
    ensures
        r@ == window_offsets(s as int),
{
    (-s..s).cartesian_product(-s..s).collect()
}

/// The positions reached from `(x, y)` by `offsets` that lie inside the frame.
fn positions_in_frame_of(x: u32, y: u32, offsets: &Vec<(i32, i32)>, width: u32, height: u32) -> (r:
    Vec<(u32, u32)>)
    ensures
        r@ == positions_in_frame(x as int, y as int, offsets@, width as int, height as int),
{
    let mut out: Vec<(u32, u32)> = Vec::new();
    for k in 0..offsets.len()
        invariant
            out@ == positions_in_frame(
                x as int,
                y as int,
                offsets@.take(k as int),
                width as int,
                height as int,
            ),
    {
        let (dx, dy) = offsets[k];
        let px = x as i64 + dx as i64;
        let py = y as i64 + dy as i64;
        if 0 <= px && px < width as i64 && 0 <= py && py < height as i64 {
            out.push((px as u32, py as u32));
        }
        assert(offsets@.take(k + 1).drop_last() =~= offsets@.take(k as int));
        assert(offsets@.take(k + 1).last() == offsets@[k as int]);
    }
    assert(offsets@.take(offsets@.len() as int) =~= offsets@);
    out
}

/// The index of the candidate with the least prediction error, the first one
/// among equals; `None` where there is no candidate.
pub fn best_prediction(errors: &[u64]) -> (r: Option<usize>)
    requires
        forall|i: int| 0 <= i < errors@.len() ==> !is_nan(#[trigger] errors@[i]),
    ensures
        match r {
            None => errors@.len() == 0,
            Some(i) => is_first_min(errors@, i as int),
        },
{
    if errors.len() == 0 {
        return None;
    }
    let mut best: usize = 0;
    for j in 1..errors.len()
        invariant
            best < j <= errors@.len(),
            forall|i: int| 0 <= i < errors@.len() ==> !is_nan(#[trigger] errors@[i]),
            forall|k: int| 0 <= k < j ==> !less(#[trigger] errors@[k], errors@[best as int]),
            forall|k: int| 0 <= k < best ==> less(errors@[best as int], #[trigger] errors@[k]),
    {
        if lt(errors[j], errors[best]) {
            best = j;
        }
    }
    Some(best)
}

/// The matcher that predicts a block by the block at the same position of the
/// target frame.
pub struct NaiveBlockMatcher {}

impl NaiveBlockMatcher {
    pub fn new() -> Self {
        Self {  }
    }
}

/// The matcher that tries every offset of a square search window.
pub struct ExhaustiveBlockMatcher {
    search_region_size: i32,
}

impl ExhaustiveBlockMatcher {
    /// The half-width of the search window.
    pub closed spec fn region(&self) -> int {
        self.search_region_size as int
    }

    pub fn new(search_region_size: u16) -> (r: Self)
        ensures
            r.region() == search_region_size,
    {
        Self { search_region_size: search_region_size as i32 }
    }

    /// The candidate positions for a block at `(x, y)`: every offset of
    /// `[-region, region)` on both axes, x offset outer, that stays inside
    /// the frame.
    pub fn candidate_positions(&self, x: u32, y: u32, frame_width: u32, frame_height: u32) -> (r:
        Vec<(u32, u32)>)
        requires
            0 <= self.region() <= 0xffff,
            4 * self.region() * self.region() <= usize::MAX,
        ensures
            r@ == positions_in_frame(
                x as int,
                y as int,
                window_offsets(self.region()),
                frame_width as int,
                frame_height as int,
            ),
    {
        let offsets = window_offsets_of(self.search_region_size);
        positions_in_frame_of(x, y, &offsets, frame_width, frame_height)
    }
}

/// The matcher that searches nine positions around an anchor, halving the
/// step after each round.
pub struct ThreeStepBlockMatcher {
    search_region_size: i32,
}

/// One round of a three-step search: the anchor it looks around and its step.
#[derive(Clone, Copy, Debug, PartialEq, Eq, Structural)]
pub struct ThreeStepSearch {
    pub anchor_x: u32,
    pub anchor_y: u32,
    pub step: i32,
}

impl ThreeStepBlockMatcher {
    /// The step of the first round.
    pub closed spec fn region(&self) -> int {
        self.search_region_size as int
    }

    pub fn new(search_region_size: u16) -> (r: Self)
        ensures
            r.region() == search_region_size,
    {
        Self { search_region_size: search_region_size as i32 }
    }

    /// The first round for a block at `(x, y)`.
    pub fn start(&self, x: u32, y: u32) -> (r: ThreeStepSearch)
        ensures
            r.anchor_x == x && r.anchor_y == y,
            r.step == self.region(),
    {
        ThreeStepSearch { anchor_x: x, anchor_y: y, step: self.search_region_size }
    }
}

impl ThreeStepSearch {
    /// The positions of this round that lie inside the frame, in the order of
    /// `step_offsets`.
    pub fn candidate_positions(&self, frame_width: u32, frame_height: u32) -> (r: Vec<(u32, u32)>)
        requires
            0 <= self.step <= 0xffff,
        ensures
            r@ == positions_in_frame(
                self.anchor_x as int,
                self.anchor_y as int,
                step_offsets(self.step),
                frame_width as int,
                frame_height as int,
            ),
    {
        let r = self.step;
        let m = -r;
        let offsets: Vec<(i32, i32)> = vec![
            (m, m), (0, m), (r, m),
            (m, 0), (0, 0), (r, 0),
            (m, r), (0, r), (r, r),
        ];
        assert(offsets@ =~= step_offsets(r));
        positions_in_frame_of(self.anchor_x, self.anchor_y, &offsets, frame_width, frame_height)
    }

    /// The round after this one, anchored at the best position of this one,
    /// with half the step; `None` where the halved step is at most 1, and
    /// `best` is the prediction.
    pub fn advance(&self, best: (u32, u32)) -> (r: Option<ThreeStepSearch>)
        requires
            0 <= self.step,
        ensures
            self.step / 2 <= 1 ==> r is None,
            self.step / 2 > 1 ==> r == Some(ThreeStepSearch { anchor_x: best.0, anchor_y: best.1, step: (self.step / 2) as i32 }),
    {
        let step = self.step / 2;
        if step <= 1 {
            None
        } else {
            Some(ThreeStepSearch { anchor_x: best.0, anchor_y: best.1, step })
        }
    }
}

} // verus!
