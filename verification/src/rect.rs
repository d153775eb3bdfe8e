//! Rectangle emission: a background rectangle for each run, and an overlay
//! for a decoration.

use crate::cell::{Color, Sugar, SugarDecoration, CELL_WIDTH, PER_MILLE, ROW_ORIGIN};
use crate::layout::SugarloafLayout;
use crate::run::{chain, lemma_identical_cells_merge, merges_next, row_runs, Run, RunView};
use vstd::prelude::*;

verus! {

/// A quad for the rectangle batch. `position` is (x, y) and `size` is
/// (width, height), in pixels.
#[derive(Clone, Copy, Debug, PartialEq, Eq)]
pub struct Rect {
    pub position: (u64, u64),
    pub color: Color,
    pub size: (u64, u64),
}

/// A length scaled by a factor in thousandths, rounded down.
pub open spec fn scaled(length: u32, factor: u32) -> int {
    length * factor / (PER_MILLE as int)
}

/// The background of a run: as wide as its cells together, one cell high, at
/// the row's corner, in the run's background color.
pub open spec fn background_rect(run: RunView, layout: SugarloafLayout) -> Rect {
    Rect {
        position: (0, 0),
        color: run.background_color,
        size: ((CELL_WIDTH * run.quantity) as u64, layout.sugarheight as u64),
    }
}

/// The overlay of a decoration: one cell wide at the row's origin, lowered by
/// the decoration's relative height of a line, and as high as its share of a
/// cell.
pub open spec fn decoration_rect(decoration: SugarDecoration, layout: SugarloafLayout) -> Rect {
    Rect {
        position: (
            ROW_ORIGIN,
            (ROW_ORIGIN + scaled(layout.line_height, decoration.relative_position.1)) as u64,
        ),
        color: decoration.color,
        size: (CELL_WIDTH, scaled(layout.sugarheight, decoration.size.1) as u64),
    }
}

/// What a run adds to the batch: its background, then its decoration's
/// overlay if it has one.
pub open spec fn run_rects(run: RunView, layout: SugarloafLayout) -> Seq<Rect> {
    match run.decoration {
        Some(decoration) => seq![
            background_rect(run, layout),
            decoration_rect(decoration, layout),
        ],
        None => seq![background_rect(run, layout)],
    }
}

/// What some runs add to the batch, in the order of the runs.
pub open spec fn rects_of(runs: Seq<RunView>, layout: SugarloafLayout) -> Seq<Rect>
    decreases runs.len(),
{
    if runs.len() == 0 {
        Seq::empty()
    } else {
        rects_of(runs.drop_last(), layout) + run_rects(runs.last(), layout)
    }
}

/// What a row adds to the batch.
pub open spec fn row_rects(row: Seq<Sugar>, layout: SugarloafLayout) -> Seq<Rect> {
    rects_of(row_runs(row), layout)
}

/// Computes `scaled`.
pub fn scale_length(length: u32, factor: u32) -> (product: u64)
    ensures
        product == scaled(length, factor),
        product <= u64::MAX / PER_MILLE,
{
    assert(length * factor <= u32::MAX * u32::MAX) by (nonlinear_arith)
        requires
            length <= u32::MAX,
            factor <= u32::MAX,
    ;
    (length as u64) * (factor as u64) / PER_MILLE
}

/// Appends the rectangles of one run to the batch.
pub fn emit_rects(run: &Run, layout: &SugarloafLayout, rects: &mut Vec<Rect>)
    requires
        CELL_WIDTH * run.quantity <= u64::MAX,
    ensures
        final(rects)@ == old(rects)@ + run_rects(run@, *layout),
{
    rects.push(
        Rect {
            position: (0, 0),
            color: run.background_color,
            size: (CELL_WIDTH * (run.quantity as u64), layout.sugarheight as u64),
        },
    );
    if let Some(decoration) = &run.decoration {
        let offset = scale_length(layout.line_height, decoration.relative_position.1);
        rects.push(
            Rect {
                position: (ROW_ORIGIN, ROW_ORIGIN + offset),
                color: decoration.color,
                size: (CELL_WIDTH, scale_length(layout.sugarheight, decoration.size.1)),
            },
        );
    }
}

/// The first rectangle that some runs add is the background of the first
/// run.
pub proof fn lemma_rects_begin_with_background(runs: Seq<RunView>, layout: SugarloafLayout)
    requires
        runs.len() > 0,
    ensures
        rects_of(runs, layout).len() >= runs.len(),
        rects_of(runs, layout)[0] == background_rect(runs[0], layout),
    decreases runs.len(),
{
    if runs.len() > 1 {
        lemma_rects_begin_with_background(runs.drop_last(), layout);
    } else {
        assert(rects_of(runs.drop_last(), layout) == Seq::<Rect>::empty());
    }
}

/// A row whose first `k + 1` cells merge with one another, and whose next
/// cell, if there is one, does not join them, begins with one rectangle
/// `k + 1` cells wide and one cell high.
pub proof fn lemma_merged_cells_share_a_rect(row: Seq<Sugar>, layout: SugarloafLayout, k: int)
    requires
        0 <= k < row.len(),
        chain(row, 0, k),
        k + 1 == row.len() || !merges_next(row, k),
        CELL_WIDTH * (k + 1) <= u64::MAX,
    ensures
        row_rects(row, layout).len() >= 1,
        row_rects(row, layout)[0].size.0 == (k + 1) * CELL_WIDTH,
        row_rects(row, layout)[0].size.1 == layout.sugarheight,
        row_rects(row, layout)[0].color == row[k].background_color,
{
    lemma_identical_cells_merge(row, k);
    lemma_rects_begin_with_background(row_runs(row), layout);
}

} // verus!
