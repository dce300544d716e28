//! Painting the spectrogram body: one column per analysis frame, one row per
//! frequency bin, the lowest frequency at the bottom.

use vstd::prelude::*;
use crate::canvas::spec_white;
use crate::canvas::Canvas;
use crate::error::SpectrogramError;
use crate::layout::Layout;
use crate::layout::Plan;
use crate::layout::MARGIN_LEFT;

verus! {

/// `columns` holds one colour for every bin of every frame of the plan.
pub open spec fn spec_shape_matches(plan: Plan, columns: Seq<Seq<(u8, u8, u8)>>) -> bool {
    &&& columns.len() == plan.frames()
    &&& forall|x: int| 0 <= x < columns.len() ==> (#[trigger] columns[x]).len() == plan.bins()
}

/// The colour of pixel `(x, y)` once the body is painted: inside the body,
/// column `x - MARGIN_LEFT` shows its bins from the bottom row upwards;
/// everything else is white.
pub open spec fn spec_body_pixel(plan: Plan, columns: Seq<Seq<(u8, u8, u8)>>, x: int, y: int) -> (
    u8,
    u8,
    u8,
) {
    if plan.in_body(x, y) {
        columns[x - MARGIN_LEFT as int][plan.body_bottom() - 1 - y]
    } else {
        spec_white()
    }
}

/// The colour of pixel `(x, y)` while the body is being painted: the first
/// `done_columns` columns are complete, and of the next one the lowest
/// `done_bins` bins.
pub open spec fn spec_partial_body_pixel(
    plan: Plan,
    columns: Seq<Seq<(u8, u8, u8)>>,
    done_columns: int,
    done_bins: int,
    x: int,
    y: int,
) -> (u8, u8, u8) {
    let column = x - MARGIN_LEFT as int;
    let bin = plan.body_bottom() - 1 - y;
    if plan.in_body(x, y) && (column < done_columns || (column == done_columns && bin
        < done_bins)) {
        columns[column][bin]
    } else {
        spec_white()
    }
}

/// Tells whether `columns` holds one colour for every bin of every frame.
pub fn shape_matches(layout: &Layout, columns: &Vec<Vec<(u8, u8, u8)>>) -> (ok: bool)
    ensures
        ok == spec_shape_matches(layout@, columns.deep_view()),
{
    let frames: u32 = layout.frames();
    let bins: u32 = layout.bins();
    if columns.len() != frames as usize {
        return false;
    }
    let mut x: usize = 0;
    while x < columns.len()
        invariant
            x <= columns.len(),
            columns.len() == layout@.frames(),
            bins == layout@.bins(),
            forall|i: int| 0 <= i < x ==> (#[trigger] columns.deep_view()[i]).len() == bins,
        decreases columns.len() - x,
    {
        if columns[x].len() != bins as usize {
            assert(columns.deep_view()[x as int].len() != layout@.bins());
            return false;
        }
        x = x + 1;
    }
    true
}

/// Paints the spectrogram body on a fresh white canvas of the layout's size.
///
/// `columns[x][y]` is the colour of frequency bin `y` of frame `x`. The
/// colours must match the layout: one column per frame, one entry per bin;
/// otherwise nothing is painted and `ShapeMismatch` is returned.
pub fn generate_spectrogram(layout: &Layout, columns: &Vec<Vec<(u8, u8, u8)>>) -> (r: Result<
    Canvas,
    SpectrogramError,
>)
    ensures
        match r {
            Ok(canvas) => {
                &&& spec_shape_matches(layout@, columns.deep_view())
                &&& canvas@.width == layout@.width()
                &&& canvas@.height == layout@.height()
                &&& forall|x: int, y: int|
                    canvas@.contains(x, y) ==> #[trigger] canvas@.pixels[(x, y)] == spec_body_pixel(
                        layout@,
                        columns.deep_view(),
                        x,
                        y,
                    )
            },
            Err(e) => e == SpectrogramError::ShapeMismatch && !spec_shape_matches(
                layout@,
                columns.deep_view(),
            ),
        },
{
    if !shape_matches(layout, columns) {
        return Err(SpectrogramError::ShapeMismatch);
    }
    let width: u32 = layout.width();
    let height: u32 = layout.height();
    let frames: u32 = layout.frames();
    let bins: u32 = layout.bins();
    let bottom: u32 = layout.body_bottom();
    let mut canvas = match Canvas::white(width, height) {
        Some(canvas) => canvas,
        None => {
            return Err(SpectrogramError::TooLarge);
        },
    };
    let ghost grid = columns.deep_view();
    let mut x: u32 = 0;
    while x < frames
        invariant
            x <= frames,
            layout@.valid(),
            frames == layout@.frames(),
            bins == layout@.bins(),
            bottom == layout@.body_bottom(),
            grid == columns.deep_view(),
            spec_shape_matches(layout@, grid),
            canvas@.width == layout@.width(),
            canvas@.height == layout@.height(),
            forall|px: int, py: int|
                canvas@.contains(px, py) ==> #[trigger] canvas@.pixels[(px, py)]
                    == spec_partial_body_pixel(layout@, grid, x as int, 0, px, py),
        decreases frames - x,
    {
        let column = &columns[x as usize];
        assert(column@.len() == grid[x as int].len());
        let mut y: u32 = 0;
        while y < bins
            invariant
                x < frames,
                y <= bins,
                layout@.valid(),
                frames == layout@.frames(),
                bins == layout@.bins(),
                bottom == layout@.body_bottom(),
                grid == columns.deep_view(),
                spec_shape_matches(layout@, grid),
                column == columns[x as int],
                column@.len() == bins,
                canvas@.width == layout@.width(),
                canvas@.height == layout@.height(),
                forall|px: int, py: int|
                    canvas@.contains(px, py) ==> #[trigger] canvas@.pixels[(px, py)]
                        == spec_partial_body_pixel(layout@, grid, x as int, y as int, px, py),
            decreases bins - y,
        {
            let color = column[y as usize];
            assert(color == grid[x as int][y as int]);
            let done: bool = canvas.set_pixel(MARGIN_LEFT + x, bottom - 1 - y, color);
            assert(done);
            y = y + 1;
        }
        x = x + 1;
    }
    Ok(canvas)
}

} // verus!
