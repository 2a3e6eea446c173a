use crate::grid::{trunc_div, Grid, Rect, TilePos};
use vstd::prelude::*;

verus! {

/// Horizontal shift from a tile's centre to where its label text starts.
pub const LABEL_OFFSET_X: i32 = 15;

/// Vertical shift from a tile's centre to where its label text starts.
pub const LABEL_OFFSET_Y: i32 = 24;

/// One tile as the overlay paints it, in coordinates relative to the usable
/// area's top-left corner, where the overlay window starts.
#[derive(Debug, Clone, Copy, PartialEq, Eq, Structural)]
pub struct TileView {
    pub pos: TilePos,
    pub rect: Rect,
    pub highlighted: bool,
    pub label: Option<char>,
    pub label_x: i32,
    pub label_y: i32,
}

/// The tile at place `i` of the row-by-row order.
pub open spec fn tile_at(grid: Grid, i: int) -> TilePos {
    TilePos { col: (i % grid.cols as int) as u32, row: (i / grid.cols as int) as u32 }
}

/// How a tile is painted.
pub open spec fn tile_view(grid: Grid, highlight: Option<TilePos>, pos: TilePos) -> TileView {
    let r = grid.rect_of_tile(pos);
    let rect = Rect {
        left: (r.left - grid.work_area.left) as i32,
        top: (r.top - grid.work_area.top) as i32,
        right: (r.right - grid.work_area.left) as i32,
        bottom: (r.bottom - grid.work_area.top) as i32,
    };
    TileView {
        pos,
        rect,
        highlighted: highlight == Some(pos),
        label: grid.key_of_tile(pos),
        label_x: (trunc_div(rect.left + rect.right, 2) - LABEL_OFFSET_X) as i32,
        label_y: (trunc_div(rect.top + rect.bottom, 2) - LABEL_OFFSET_Y) as i32,
    }
}

fn paint_tile(grid: &Grid, highlight: Option<TilePos>, pos: TilePos) -> (v: TileView)
    requires
        grid.wf(),
        grid.contains(pos),
    ensures
        v == tile_view(*grid, highlight, pos),
{
    proof {
        grid.lemma_tile_edges_fit(pos);
    }
    let rect = grid.tile_rect(pos);
    let draw_rect = Rect {
        left: rect.left - grid.work_area.left,
        top: rect.top - grid.work_area.top,
        right: rect.right - grid.work_area.left,
        bottom: rect.bottom - grid.work_area.top,
    };
    let highlighted = match highlight {
        Some(h) => h == pos,
        None => false,
    };
    let label = grid.tile_to_key(pos);
    let label_x: i32 = (draw_rect.left + draw_rect.right) / 2 - LABEL_OFFSET_X;
    let label_y: i32 = (draw_rect.top + draw_rect.bottom) / 2 - LABEL_OFFSET_Y;
    TileView { pos, rect: draw_rect, highlighted, label, label_x, label_y }
}

/// Every tile of the grid, row by row, as the overlay paints it: its
/// rectangle relative to the usable area, whether it is the highlighted
/// tile, its label key and where the label text starts.
pub fn tile_views(grid: &Grid, highlight: Option<TilePos>) -> (r: Vec<TileView>)
    requires
        grid.wf(),
    ensures
        r@.len() == grid.rows * grid.cols,
        forall|i: int|
            0 <= i < r@.len() ==> #[trigger] r@[i] == tile_view(*grid, highlight, tile_at(*grid, i)),
{
    let mut views: Vec<TileView> = Vec::new();
    let mut row: u32 = 0;
    while row < grid.rows
        invariant
            grid.wf(),
            row <= grid.rows,
            views@.len() == row * grid.cols,
            forall|i: int|
                0 <= i < views@.len() ==> #[trigger] views@[i] == tile_view(
                    *grid,
                    highlight,
                    tile_at(*grid, i),
                ),
        decreases grid.rows - row,
    {
        let mut col: u32 = 0;
        while col < grid.cols
            invariant
                grid.wf(),
                row < grid.rows,
                col <= grid.cols,
                views@.len() == row * grid.cols + col,
                forall|i: int|
                    0 <= i < views@.len() ==> #[trigger] views@[i] == tile_view(
                        *grid,
                        highlight,
                        tile_at(*grid, i),
                    ),
            decreases grid.cols - col,
        {
            let pos = TilePos { col, row };
            let view = paint_tile(grid, highlight, pos);
            proof {
                let i = row * grid.cols + col;
                assert(i % grid.cols as int == col && i / grid.cols as int == row) by (
                    nonlinear_arith)
                    requires
                        i == row * grid.cols + col,
                        0 <= col < grid.cols,
                        0 <= row,
                ;
            }
            views.push(view);
            col = col + 1;
        }
        proof {
            assert((row + 1) * grid.cols == row * grid.cols + grid.cols) by (nonlinear_arith);
        }
        row = row + 1;
    }
    views
}

} // verus!
