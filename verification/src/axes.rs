//! The two axes of the body and their scales: frequency up the left side,
//! time along the bottom.

use vstd::prelude::*;
use vstd::arithmetic::div_mod::lemma_div_is_ordered;
use vstd::arithmetic::div_mod::lemma_fundamental_div_mod;
use vstd::arithmetic::div_mod::lemma_mod_bound;
use vstd::arithmetic::div_mod::lemma_multiply_divide_le;
use vstd::arithmetic::div_mod::lemma_multiply_divide_lt;
use crate::draw::spec_line;
use crate::draw::spec_text;
use crate::draw::DrawOp;
use crate::draw::Stroke;
use crate::labels::frequency_label;
use crate::labels::spec_frequency_label;
use crate::labels::spec_time_label;
use crate::labels::time_label;
use crate::layout::Layout;
use crate::layout::Plan;
use crate::layout::MARGIN_LEFT;
use crate::layout::MARGIN_TOP;

verus! {

/// Length of a tick mark, in pixels.
pub const TICK_LENGTH: u32 = 5;

/// Pixel size of the axis labels.
pub const AXIS_FONT_SIZE: u32 = 24;

/// Column at which the frequency labels start.
pub const FREQUENCY_LABEL_X: u32 = 50;

/// How far a frequency label starts above its tick.
pub const FREQUENCY_LABEL_RISE: u32 = 12;

/// Distance between frequency ticks, in hertz.
pub const FREQUENCY_STEP: u32 = 1000;

/// Distance between time ticks, in seconds.
pub const TIME_STEP: u32 = 5;

/// How far a time label starts left of its tick.
pub const TIME_LABEL_SHIFT: u32 = 30;

/// How far a time label starts below the axis.
pub const TIME_LABEL_DROP: u32 = 20;

/// The two axis lines: the frequency axis down the left edge of the body,
/// then the time axis along the row below it.
pub open spec fn spec_axes(plan: Plan) -> Seq<Stroke> {
    seq![
        spec_line(
            MARGIN_LEFT as int,
            MARGIN_TOP as int,
            MARGIN_LEFT as int,
            plan.body_bottom() as int,
        ),
        spec_line(
            MARGIN_LEFT as int,
            plan.body_bottom() as int,
            plan.axis_right(),
            plan.body_bottom() as int,
        ),
    ]
}

/// How many rows above the bottom row of the body the frequency `khz`
/// kilohertz lies: its share of the Nyquist frequency, applied to the body
/// height and rounded down.
pub open spec fn spec_frequency_offset(plan: Plan, khz: nat) -> nat {
    ((2 * (khz * FREQUENCY_STEP as nat) * plan.bins()) as int / plan.sample_rate as int) as nat
}

/// The image row of the frequency `khz` kilohertz.
pub open spec fn spec_frequency_row(plan: Plan, khz: nat) -> int {
    plan.body_bottom() - 1 - spec_frequency_offset(plan, khz)
}

/// Number of regular ticks: the multiples of 1000 Hz below the Nyquist
/// frequency, which is half the sample rate.
pub open spec fn spec_regular_tick_count(plan: Plan) -> nat {
    ((plan.sample_rate + 2 * FREQUENCY_STEP as nat - 1) / (2 * FREQUENCY_STEP as int)) as nat
}

/// The label and the tick mark of the regular tick at `khz` kilohertz.
pub open spec fn spec_frequency_tick(plan: Plan, khz: nat) -> Seq<Stroke> {
    seq![
        spec_text(
            FREQUENCY_LABEL_X as int,
            spec_frequency_row(plan, khz) - FREQUENCY_LABEL_RISE as int,
            AXIS_FONT_SIZE as nat,
            spec_frequency_label(khz),
        ),
        spec_line(
            MARGIN_LEFT as int - TICK_LENGTH as int,
            spec_frequency_row(plan, khz),
            MARGIN_LEFT as int,
            spec_frequency_row(plan, khz),
        ),
    ]
}

/// The first `n` regular ticks, from 0 Hz upwards.
pub open spec fn spec_regular_ticks(plan: Plan, n: nat) -> Seq<Stroke>
    decreases n,
{
    if n == 0 {
        Seq::empty()
    } else {
        spec_regular_ticks(plan, (n - 1) as nat) + spec_frequency_tick(plan, (n - 1) as nat)
    }
}

/// The Nyquist frequency gets a tick of its own where it lies at least 1000
/// Hz above the last regular tick. (Both sides are doubled, to stay in whole
/// numbers.)
pub open spec fn spec_has_nyquist_tick(plan: Plan) -> bool {
    plan.sample_rate - 2 * (FREQUENCY_STEP as int) * (spec_regular_tick_count(plan) - 1) >= 2
        * FREQUENCY_STEP as int
}

/// The label and the tick mark at the Nyquist frequency, on the top row of
/// the body.
pub open spec fn spec_nyquist_tick(plan: Plan) -> Seq<Stroke> {
    seq![
        spec_text(
            FREQUENCY_LABEL_X as int,
            MARGIN_TOP as int - FREQUENCY_LABEL_RISE as int,
            AXIS_FONT_SIZE as nat,
            spec_frequency_label((plan.sample_rate / (2 * FREQUENCY_STEP as nat)) as nat),
        ),
        spec_line(
            MARGIN_LEFT as int - TICK_LENGTH as int,
            MARGIN_TOP as int,
            MARGIN_LEFT as int,
            MARGIN_TOP as int,
        ),
    ]
}

/// The frequency scale: the regular ticks, then the Nyquist tick if it has
/// one.
pub open spec fn spec_frequency_scale(plan: Plan) -> Seq<Stroke> {
    spec_regular_ticks(plan, spec_regular_tick_count(plan)) + if spec_has_nyquist_tick(plan) {
        spec_nyquist_tick(plan)
    } else {
        Seq::empty()
    }
}

/// A multiple of 1000 Hz gets a regular tick exactly when it lies below the
/// Nyquist frequency, and that is exactly when its row lies inside the body.
pub proof fn lemma_regular_tick_inside_body(plan: Plan, khz: nat)
    requires
        plan.valid(),
    ensures
        khz < spec_regular_tick_count(plan) <==> 2 * (khz * FREQUENCY_STEP as nat)
            < plan.sample_rate,
        khz < spec_regular_tick_count(plan) <==> spec_frequency_offset(plan, khz) < plan.bins(),
        khz < spec_regular_tick_count(plan) <==> MARGIN_TOP as int <= spec_frequency_row(
            plan,
            khz,
        ) < plan.body_bottom(),
{
    let rate = plan.sample_rate as int;
    let bins = plan.bins() as int;
    let doubled = 2 * (khz * 1000) as int;
    let count = spec_regular_tick_count(plan) as int;
    assert(bins >= 1);
    lemma_fundamental_div_mod(rate + 1999, 2000);
    lemma_mod_bound(rate + 1999, 2000);
    assert(khz < count <==> doubled < rate);
    let scaled = doubled * bins;
    assert(scaled == 2 * (khz * FREQUENCY_STEP as nat) * plan.bins());
    assert(scaled >= 0) by (nonlinear_arith)
        requires
            scaled == doubled * bins,
            doubled >= 0,
            bins >= 0,
    ;
    if doubled < rate {
        assert(scaled < rate * bins) by (nonlinear_arith)
            requires
                scaled == doubled * bins,
                doubled < rate,
                bins >= 1,
        ;
        lemma_multiply_divide_lt(scaled, rate, bins);
    } else {
        assert(scaled >= rate * bins) by (nonlinear_arith)
            requires
                scaled == doubled * bins,
                doubled >= rate,
                bins >= 1,
        ;
        assert(rate * bins == bins * rate) by (nonlinear_arith);
        lemma_div_is_ordered(bins * rate, scaled, rate);
        vstd::arithmetic::div_mod::lemma_div_multiples_vanish(bins, rate);
    }
    assert(scaled / rate >= 0) by {
        lemma_div_is_ordered(0, scaled, rate);
    }
}

/// The Nyquist frequency gets a tick of its own exactly when it is a whole
/// number of kilohertz.
pub proof fn lemma_nyquist_tick_iff_whole_khz(plan: Plan)
    requires
        plan.valid(),
    ensures
        spec_has_nyquist_tick(plan) <==> plan.sample_rate % (2 * FREQUENCY_STEP as nat) == 0,
{
    let rate = plan.sample_rate as int;
    lemma_fundamental_div_mod(rate + 1999, 2000);
    lemma_mod_bound(rate + 1999, 2000);
    lemma_fundamental_div_mod(rate, 2000);
    lemma_mod_bound(rate, 2000);
}

/// Number of candidate time ticks: one every five seconds from 0 to the
/// duration of the audio.
pub open spec fn spec_time_tick_count(plan: Plan) -> nat {
    (plan.sample_count / (TIME_STEP as nat * plan.sample_rate) + 1) as nat
}

/// How many columns right of the left edge of the body candidate tick `i`
/// lies: its share of the duration, applied to the body width and rounded
/// down.
pub open spec fn spec_time_offset(plan: Plan, i: nat) -> nat {
    if plan.sample_count == 0 {
        0
    } else {
        ((TIME_STEP as nat * i * plan.sample_rate * plan.frames()) as int
            / plan.sample_count as int) as nat
    }
}

/// The image column of candidate tick `i`.
pub open spec fn spec_time_column(plan: Plan, i: nat) -> int {
    MARGIN_LEFT as int + spec_time_offset(plan, i)
}

/// A candidate tick is drawn where its column lies left of the end of the
/// time axis.
pub open spec fn spec_time_tick_shown(plan: Plan, i: nat) -> bool {
    spec_time_column(plan, i) < plan.axis_right()
}

/// The label and the tick mark of candidate tick `i`, or nothing where the
/// tick is suppressed.
pub open spec fn spec_time_tick(plan: Plan, i: nat) -> Seq<Stroke> {
    if spec_time_tick_shown(plan, i) {
        seq![
            spec_text(
                spec_time_column(plan, i) - TIME_LABEL_SHIFT as int,
                plan.body_bottom() + TIME_LABEL_DROP as int,
                AXIS_FONT_SIZE as nat,
                spec_time_label(TIME_STEP as nat * i),
            ),
            spec_line(
                spec_time_column(plan, i),
                plan.body_bottom() as int,
                spec_time_column(plan, i),
                plan.body_bottom() + TICK_LENGTH as int,
            ),
        ]
    } else {
        Seq::empty()
    }
}

/// What the first `n` candidate ticks draw.
pub open spec fn spec_time_ticks(plan: Plan, n: nat) -> Seq<Stroke>
    decreases n,
{
    if n == 0 {
        Seq::empty()
    } else {
        spec_time_ticks(plan, (n - 1) as nat) + spec_time_tick(plan, (n - 1) as nat)
    }
}

/// The time scale.
pub open spec fn spec_time_scale(plan: Plan) -> Seq<Stroke> {
    spec_time_ticks(plan, spec_time_tick_count(plan))
}

/// A candidate tick lies within the duration of the audio, and its column
/// within the body or on its right edge.
pub proof fn lemma_time_tick_within_body(plan: Plan, i: nat)
    requires
        plan.valid(),
        i < spec_time_tick_count(plan),
    ensures
        TIME_STEP as nat * i * plan.sample_rate <= plan.sample_count,
        spec_time_offset(plan, i) <= plan.frames(),
{
    let step = (5 * plan.sample_rate) as int;
    let count = plan.sample_count as int;
    let frames = plan.frames() as int;
    lemma_fundamental_div_mod(count, step);
    lemma_mod_bound(count, step);
    let q = count / step;
    assert(i * step <= q * step) by (nonlinear_arith)
        requires
            0 <= i <= q,
            step > 0,
    ;
    assert(q * step == step * q) by (nonlinear_arith);
    assert(5 * i * plan.sample_rate == i * step) by (nonlinear_arith)
        requires
            step == 5 * plan.sample_rate,
    ;
    let elapsed = 5 * i * plan.sample_rate;
    if count > 0 {
        assert(0 <= elapsed * frames <= count * frames) by (nonlinear_arith)
            requires
                0 <= elapsed <= count,
                frames >= 0,
        ;
        lemma_multiply_divide_le(elapsed * frames, count, frames);
        lemma_div_is_ordered(0, elapsed * frames, count);
    }
}

/// The two axis lines.
pub fn draw_axes(layout: &Layout) -> (ops: Vec<DrawOp>)
    ensures
        ops.deep_view() == spec_axes(layout@),
{
    let bottom: i32 = layout.body_bottom() as i32;
    let right: i32 = layout.axis_right() as i32;
    let left: i32 = MARGIN_LEFT as i32;
    let mut ops: Vec<DrawOp> = Vec::new();
    ops.push(DrawOp::Line { x0: left, y0: MARGIN_TOP as i32, x1: left, y1: bottom });
    ops.push(DrawOp::Line { x0: left, y0: bottom, x1: right, y1: bottom });
    assert(ops.deep_view() =~= spec_axes(layout@));
    ops
}

/// The frequency scale: a label and a tick mark every 1000 Hz from 0 Hz to
/// below the Nyquist frequency, and one more at the Nyquist frequency itself
/// where that is at least 1000 Hz above the last of them.
pub fn draw_frequency_scale(layout: &Layout) -> (ops: Vec<DrawOp>)
    ensures
        ops.deep_view() == spec_frequency_scale(layout@),
{
    let rate: u64 = layout.sample_rate() as u64;
    let bins: u64 = layout.bins() as u64;
    let bottom: u32 = layout.body_bottom();
    let left: i32 = MARGIN_LEFT as i32;
    let count: u64 = (rate + 1999) / 2000;
    let mut ops: Vec<DrawOp> = Vec::new();
    let mut khz: u64 = 0;
    assert(ops.deep_view() =~= spec_regular_ticks(layout@, 0));
    while khz < count
        invariant
            khz <= count,
            layout@.valid(),
            count == spec_regular_tick_count(layout@),
            rate == layout@.sample_rate,
            rate <= 0xFFFF_FFFF,
            bins == layout@.bins(),
            bins <= 0x7FFF_FFFF,
            bottom == layout@.body_bottom(),
            bottom <= i32::MAX,
            left == MARGIN_LEFT,
            ops.deep_view() == spec_regular_ticks(layout@, khz as nat),
        decreases count - khz,
    {
        proof {
            lemma_regular_tick_inside_body(layout@, khz as nat);
        }
        assert(2000 * khz * bins == 2 * (khz * FREQUENCY_STEP as nat) * layout@.bins())
            by (nonlinear_arith)
            requires
                bins == layout@.bins(),
        ;
        assert(2000 * khz * bins <= 0xFFFF_FFFF * 0x7FFF_FFFF) by (nonlinear_arith)
            requires
                2000 * khz < rate,
                rate <= 0xFFFF_FFFF,
                bins <= 0x7FFF_FFFF,
        ;
        let offset: u64 = (2000 * khz * bins) / rate;
        let row: i32 = (bottom - 1 - offset as u32) as i32;
        let text = frequency_label(khz as u32);
        let ghost before = ops.deep_view();
        ops.push(
            DrawOp::Text {
                x: FREQUENCY_LABEL_X as i32,
                y: row - FREQUENCY_LABEL_RISE as i32,
                size: AXIS_FONT_SIZE,
                text,
            },
        );
        ops.push(DrawOp::Line { x0: left - TICK_LENGTH as i32, y0: row, x1: left, y1: row });
        assert(ops.deep_view() =~= before + spec_frequency_tick(layout@, khz as nat));
        khz = khz + 1;
    }
    if rate - 2000 * (count - 1) >= 2000 {
        let ghost before = ops.deep_view();
        let text = frequency_label((rate / 2000) as u32);
        ops.push(
            DrawOp::Text {
                x: FREQUENCY_LABEL_X as i32,
                y: MARGIN_TOP as i32 - FREQUENCY_LABEL_RISE as i32,
                size: AXIS_FONT_SIZE,
                text,
            },
        );
        ops.push(
            DrawOp::Line {
                x0: left - TICK_LENGTH as i32,
                y0: MARGIN_TOP as i32,
                x1: left,
                y1: MARGIN_TOP as i32,
            },
        );
        assert(ops.deep_view() =~= before + spec_nyquist_tick(layout@));
    } else {
        assert(ops.deep_view() =~= ops.deep_view() + Seq::<Stroke>::empty());
    }
    ops
}

/// The time scale: a label and a tick mark every five seconds from 0 to the
/// duration of the audio, placed in proportion along the body; a tick that
/// would reach the end of the time axis is left out.
pub fn draw_time_scale(layout: &Layout) -> (ops: Vec<DrawOp>)
    ensures
        ops.deep_view() == spec_time_scale(layout@),
{
    let rate: u64 = layout.sample_rate() as u64;
    let samples: u64 = layout.sample_count() as u64;
    let frames: u32 = layout.frames();
    let bottom: u32 = layout.body_bottom();
    let right: u32 = layout.axis_right();
    let step: u64 = 5 * rate;
    let count: u64 = samples / step;
    assert(count <= samples / 5) by {
        vstd::arithmetic::div_mod::lemma_div_is_ordered_by_denominator(
            samples as int,
            5,
            step as int,
        );
    }
    let mut ops: Vec<DrawOp> = Vec::new();
    let mut i: u64 = 0;
    assert(ops.deep_view() =~= spec_time_ticks(layout@, 0));
    while i <= count
        invariant
            i <= count + 1,
            layout@.valid(),
            count + 1 == spec_time_tick_count(layout@),
            count < u64::MAX,
            rate == layout@.sample_rate,
            step == 5 * rate,
            samples == layout@.sample_count,
            frames == layout@.frames(),
            bottom == layout@.body_bottom(),
            right == layout@.axis_right(),
            layout@.width() <= i32::MAX,
            layout@.height() <= i32::MAX,
            ops.deep_view() == spec_time_ticks(layout@, i as nat),
        decreases count + 1 - i,
    {
        proof {
            lemma_time_tick_within_body(layout@, i as nat);
            assert(5 * i * rate == i * step) by (nonlinear_arith)
                requires
                    step == 5 * rate,
            ;
            assert(5 * i <= 5 * i * rate) by (nonlinear_arith)
                requires
                    rate >= 1,
                    i >= 0,
            ;
        }
        let elapsed: u64 = i * step;
        let offset: u32 = if samples == 0 {
            0
        } else {
            assert((elapsed as u128) * (frames as u128) <= 0xFFFF_FFFF_FFFF_FFFF * 0xFFFF_FFFF)
                by (nonlinear_arith)
                requires
                    elapsed <= 0xFFFF_FFFF_FFFF_FFFF,
                    frames <= 0xFFFF_FFFF,
            ;
            assert(elapsed * frames == 5 * i * rate * frames) by (nonlinear_arith)
                requires
                    elapsed == 5 * i * rate,
            ;
            (((elapsed as u128) * (frames as u128)) / (samples as u128)) as u32
        };
        assert(offset == spec_time_offset(layout@, i as nat));
        let column: u32 = MARGIN_LEFT + offset;
        if column < right {
            let ghost before = ops.deep_view();
            let text = time_label(5 * i);
            ops.push(
                DrawOp::Text {
                    x: column as i32 - TIME_LABEL_SHIFT as i32,
                    y: (bottom + TIME_LABEL_DROP) as i32,
                    size: AXIS_FONT_SIZE,
                    text,
                },
            );
            ops.push(
                DrawOp::Line {
                    x0: column as i32,
                    y0: bottom as i32,
                    x1: column as i32,
                    y1: (bottom + TICK_LENGTH) as i32,
                },
            );
            assert(ops.deep_view() =~= before + spec_time_tick(layout@, i as nat));
        } else {
            assert(ops.deep_view() =~= ops.deep_view() + spec_time_tick(layout@, i as nat));
        }
        i = i + 1;
    }
    ops
}

} // verus!
