//! The colour legend: a vertical colour bar right of the body, framed, with
//! a decibel scale beside it.

use vstd::prelude::*;
use vstd::arithmetic::div_mod::lemma_div_is_ordered;
use vstd::arithmetic::div_mod::lemma_div_multiples_vanish;
use vstd::arithmetic::div_mod::lemma_multiply_divide_le;
use crate::canvas::Canvas;
use crate::draw::spec_line;
use crate::draw::spec_text;
use crate::draw::DrawOp;
use crate::draw::Stroke;
use crate::error::SpectrogramError;
use crate::labels::decibel_label;
use crate::labels::spec_decibel_label;
use crate::layout::Layout;
use crate::layout::Plan;
use crate::layout::COLORBAR_WIDTH;
use crate::layout::MARGIN_TOP;

verus! {

/// Lower end of the displayed dynamic range, in decibels.
pub const DB_MIN: i32 = -120;

/// Upper end of the displayed dynamic range, in decibels.
pub const DB_MAX: i32 = 0;

/// Distance between legend ticks, in decibels.
pub const DB_STEP: i32 = 10;

/// Pixel size of the legend labels.
pub const LEGEND_FONT_SIZE: u32 = 20;

/// Length of a legend tick mark, and the gap between the bar and its labels.
pub const LEGEND_TICK_LENGTH: u32 = 5;

/// How far a legend label starts above its tick.
pub const LEGEND_LABEL_RISE: u32 = 8;

/// `db` held to the displayed range.
pub open spec fn spec_clamp_db(db: int) -> int {
    if db < DB_MIN as int {
        DB_MIN as int
    } else if db > DB_MAX as int {
        DB_MAX as int
    } else {
        db
    }
}

/// How many rows below the top of the bar the level `db` lies: the share of
/// the displayed range above it, applied to the bar height and rounded down.
pub open spec fn spec_legend_offset(db: int, bins: nat) -> nat {
    (((DB_MAX as int - spec_clamp_db(db)) * bins) / (DB_MAX as int - DB_MIN as int)) as nat
}

/// The image row of the level `db`.
pub open spec fn spec_legend_row(plan: Plan, db: int) -> int {
    MARGIN_TOP as int + spec_legend_offset(db, plan.bins())
}

/// Number of legend ticks: one every 10 dB across the displayed range, both
/// ends included.
pub open spec fn spec_legend_tick_count() -> nat {
    ((DB_MAX as int - DB_MIN as int) / (DB_STEP as int) + 1) as nat
}

/// The level of legend tick `j`, counted from the lower end of the range.
pub open spec fn spec_legend_db(j: nat) -> int {
    DB_MIN as int + DB_STEP as int * j
}

/// The column just right of the colour bar, on which its right border runs.
pub open spec fn spec_colorbar_right(plan: Plan) -> int {
    plan.colorbar_x() + COLORBAR_WIDTH as int
}

/// The label and the tick mark of legend tick `j`.
pub open spec fn spec_legend_tick(plan: Plan, j: nat) -> Seq<Stroke> {
    seq![
        spec_text(
            spec_colorbar_right(plan) + LEGEND_TICK_LENGTH as int,
            spec_legend_row(plan, spec_legend_db(j)) - LEGEND_LABEL_RISE as int,
            LEGEND_FONT_SIZE as nat,
            spec_decibel_label(spec_legend_db(j)),
        ),
        spec_line(
            spec_colorbar_right(plan),
            spec_legend_row(plan, spec_legend_db(j)),
            spec_colorbar_right(plan) + LEGEND_TICK_LENGTH as int,
            spec_legend_row(plan, spec_legend_db(j)),
        ),
    ]
}

/// The first `n` legend ticks, from the lower end of the range upwards.
pub open spec fn spec_legend_ticks(plan: Plan, n: nat) -> Seq<Stroke>
    decreases n,
{
    if n == 0 {
        Seq::empty()
    } else {
        spec_legend_ticks(plan, (n - 1) as nat) + spec_legend_tick(plan, (n - 1) as nat)
    }
}

/// The frame of the colour bar: left, right, top and bottom border.
pub open spec fn spec_colorbar_border(plan: Plan) -> Seq<Stroke> {
    seq![
        spec_line(
            plan.colorbar_x() as int,
            MARGIN_TOP as int,
            plan.colorbar_x() as int,
            plan.body_bottom() as int,
        ),
        spec_line(
            spec_colorbar_right(plan),
            MARGIN_TOP as int,
            spec_colorbar_right(plan),
            plan.body_bottom() as int,
        ),
        spec_line(
            plan.colorbar_x() as int,
            MARGIN_TOP as int,
            spec_colorbar_right(plan),
            MARGIN_TOP as int,
        ),
        spec_line(
            plan.colorbar_x() as int,
            plan.body_bottom() as int,
            spec_colorbar_right(plan),
            plan.body_bottom() as int,
        ),
    ]
}

/// What is drawn over the colour bar: its frame, then the decibel scale.
pub open spec fn spec_legend_strokes(plan: Plan) -> Seq<Stroke> {
    spec_colorbar_border(plan) + spec_legend_ticks(plan, spec_legend_tick_count())
}

/// The colour of pixel `(x, y)` once the colour bar is painted: inside the
/// bar, row `y` shows entry `y - MARGIN_TOP` of the legend across the whole
/// width; everything else stays as it was.
pub open spec fn spec_colorbar_pixel(
    plan: Plan,
    legend: Seq<(u8, u8, u8)>,
    before: Map<(int, int), (u8, u8, u8)>,
    x: int,
    y: int,
) -> (u8, u8, u8) {
    if plan.in_colorbar(x, y) {
        legend[y - MARGIN_TOP as int]
    } else {
        before[(x, y)]
    }
}

/// The colour of pixel `(x, y)` while the bar is being painted: the first
/// `done_rows` rows are complete, and of the next one the first `done_columns`
/// pixels.
pub open spec fn spec_partial_colorbar_pixel(
    plan: Plan,
    legend: Seq<(u8, u8, u8)>,
    before: Map<(int, int), (u8, u8, u8)>,
    done_rows: int,
    done_columns: int,
    x: int,
    y: int,
) -> (u8, u8, u8) {
    let row = y - MARGIN_TOP as int;
    let column = x - plan.colorbar_x();
    if plan.in_colorbar(x, y) && (row < done_rows || (row == done_rows && column < done_columns)) {
        legend[row]
    } else {
        before[(x, y)]
    }
}

/// Why the colour bar cannot be painted, if it cannot: the canvas is not the
/// layout's, or the legend does not have one colour per row of the bar.
pub open spec fn spec_colorbar_refusal(
    plan: Plan,
    width: nat,
    height: nat,
    legend_len: nat,
) -> Option<SpectrogramError> {
    if width != plan.width() || height != plan.height() {
        Some(SpectrogramError::CanvasMismatch)
    } else if legend_len != plan.bins() {
        Some(SpectrogramError::ShapeMismatch)
    } else {
        None
    }
}

/// The top of the bar is the upper end of the displayed range, and the row
/// below its last row is the lower end.
pub proof fn lemma_legend_offset_endpoints(bins: nat)
    ensures
        spec_legend_offset(DB_MAX as int, bins) == 0,
        spec_legend_offset(DB_MIN as int, bins) == bins,
{
    assert(0 * bins == 0) by (nonlinear_arith);
    assert(120 * bins == bins * 120) by (nonlinear_arith);
    lemma_div_multiples_vanish(bins as int, 120);
}

/// Levels outside the displayed range saturate at its ends.
pub proof fn lemma_legend_offset_saturates(db: int, bins: nat)
    ensures
        db >= DB_MAX as int ==> spec_legend_offset(db, bins) == 0,
        db <= DB_MIN as int ==> spec_legend_offset(db, bins) == bins,
{
    lemma_legend_offset_endpoints(bins);
}

/// A louder level never lies on a lower row, and every level lies on the bar
/// or on the row just below it.
pub proof fn lemma_legend_offset_monotonic(db1: int, db2: int, bins: nat)
    requires
        db1 <= db2,
    ensures
        spec_legend_offset(db2, bins) <= spec_legend_offset(db1, bins) <= bins,
{
    let a = (DB_MAX as int - spec_clamp_db(db1)) * bins;
    let b = (DB_MAX as int - spec_clamp_db(db2)) * bins;
    let d1 = DB_MAX as int - spec_clamp_db(db1);
    let d2 = DB_MAX as int - spec_clamp_db(db2);
    assert(0 <= b <= a <= 120 * bins) by (nonlinear_arith)
        requires
            a == d1 * bins,
            b == d2 * bins,
            0 <= d2 <= d1 <= 120,
            bins >= 0,
    ;
    lemma_div_is_ordered(b, a, 120);
    lemma_div_is_ordered(0, b, 120);
    lemma_multiply_divide_le(a, 120, bins as int);
}

/// Paints the colour bar and returns what is to be drawn over it.
///
/// `legend[y]` is the colour of row `y` of the bar, counted from the top; it
/// stands for the intensity `1 - y / bins`. The canvas must have the layout's
/// size and the legend one colour per row; otherwise the canvas is left as it
/// was and the reason is returned.
pub fn draw_colorbar_with_scale(
    canvas: &mut Canvas,
    layout: &Layout,
    legend: &Vec<(u8, u8, u8)>,
) -> (r: Result<Vec<DrawOp>, SpectrogramError>)
    ensures
        final(canvas)@.width == old(canvas)@.width,
        final(canvas)@.height == old(canvas)@.height,
        match r {
            Ok(ops) => {
                &&& spec_colorbar_refusal(
                    layout@,
                    old(canvas)@.width,
                    old(canvas)@.height,
                    legend@.len(),
                ).is_none()
                &&& forall|x: int, y: int|
                    old(canvas)@.contains(x, y) ==> #[trigger] final(canvas)@.pixels[(x, y)]
                        == spec_colorbar_pixel(layout@, legend@, old(canvas)@.pixels, x, y)
                &&& ops.deep_view() == spec_legend_strokes(layout@)
            },
            Err(e) => {
                &&& spec_colorbar_refusal(
                    layout@,
                    old(canvas)@.width,
                    old(canvas)@.height,
                    legend@.len(),
                ) == Some(e)
                &&& final(canvas)@.pixels == old(canvas)@.pixels
            },
        },
{
    let width: u32 = layout.width();
    let height: u32 = layout.height();
    let bins: u32 = layout.bins();
    let left: u32 = layout.colorbar_x();
    let bottom: u32 = layout.body_bottom();
    if canvas.width() != width || canvas.height() != height {
        return Err(SpectrogramError::CanvasMismatch);
    }
    if legend.len() != bins as usize {
        return Err(SpectrogramError::ShapeMismatch);
    }
    let ghost before = canvas@.pixels;
    let mut row: u32 = 0;
    while row < bins
        invariant
            row <= bins,
            layout@.valid(),
            bins == layout@.bins(),
            left == layout@.colorbar_x(),
            legend@.len() == bins,
            canvas@.width == layout@.width(),
            canvas@.height == layout@.height(),
            forall|x: int, y: int|
                canvas@.contains(x, y) ==> #[trigger] canvas@.pixels[(x, y)]
                    == spec_partial_colorbar_pixel(layout@, legend@, before, row as int, 0, x, y),
        decreases bins - row,
    {
        let color = legend[row as usize];
        let mut column: u32 = 0;
        while column < COLORBAR_WIDTH
            invariant
                row < bins,
                column <= COLORBAR_WIDTH,
                layout@.valid(),
                bins == layout@.bins(),
                left == layout@.colorbar_x(),
                legend@.len() == bins,
                color == legend@[row as int],
                canvas@.width == layout@.width(),
                canvas@.height == layout@.height(),
                forall|x: int, y: int|
                    canvas@.contains(x, y) ==> #[trigger] canvas@.pixels[(x, y)]
                        == spec_partial_colorbar_pixel(
                        layout@,
                        legend@,
                        before,
                        row as int,
                        column as int,
                        x,
                        y,
                    ),
            decreases COLORBAR_WIDTH - column,
        {
            let done: bool = canvas.set_pixel(left + column, MARGIN_TOP + row, color);
            assert(done);
            column = column + 1;
        }
        row = row + 1;
    }
    let right: i32 = (left + COLORBAR_WIDTH) as i32;
    let top: i32 = MARGIN_TOP as i32;
    let mut ops: Vec<DrawOp> = Vec::new();
    ops.push(DrawOp::Line { x0: left as i32, y0: top, x1: left as i32, y1: bottom as i32 });
    ops.push(DrawOp::Line { x0: right, y0: top, x1: right, y1: bottom as i32 });
    ops.push(DrawOp::Line { x0: left as i32, y0: top, x1: right, y1: top });
    ops.push(DrawOp::Line { x0: left as i32, y0: bottom as i32, x1: right, y1: bottom as i32 });
    assert(ops.deep_view() =~= spec_colorbar_border(layout@) + spec_legend_ticks(layout@, 0));
    let count: u32 = ((DB_MAX - DB_MIN) / DB_STEP + 1) as u32;
    let mut j: u32 = 0;
    while j < count
        invariant
            j <= count,
            count == spec_legend_tick_count(),
            count == 13,
            layout@.valid(),
            layout@.width() <= i32::MAX,
            layout@.height() <= i32::MAX,
            bins == layout@.bins(),
            right == spec_colorbar_right(layout@),
            top == MARGIN_TOP,
            ops.deep_view() == spec_colorbar_border(layout@) + spec_legend_ticks(
                layout@,
                j as nat,
            ),
        decreases count - j,
    {
        let db: i32 = DB_MIN + DB_STEP * (j as i32);
        proof {
            lemma_legend_offset_monotonic(db as int, db as int, bins as nat);
        }
        let above: u64 = (DB_MAX - db) as u64;
        assert(above * (bins as u64) <= 120 * 0xFFFF_FFFF) by (nonlinear_arith)
            requires
                above <= 120,
                bins <= 0xFFFF_FFFF,
        ;
        let offset: u32 = ((above * (bins as u64)) / ((DB_MAX - DB_MIN) as u64)) as u32;
        assert(offset == spec_legend_offset(db as int, bins as nat));
        let y: i32 = (MARGIN_TOP + offset) as i32;
        let text = decibel_label(db);
        let ghost earlier = ops.deep_view();
        ops.push(
            DrawOp::Text {
                x: right + LEGEND_TICK_LENGTH as i32,
                y: y - LEGEND_LABEL_RISE as i32,
                size: LEGEND_FONT_SIZE,
                text,
            },
        );
        ops.push(DrawOp::Line { x0: right, y0: y, x1: right + LEGEND_TICK_LENGTH as i32, y1: y });
        assert(ops.deep_view() =~= earlier + spec_legend_tick(layout@, j as nat));
        j = j + 1;
    }
    Ok(ops)
}

} // verus!
