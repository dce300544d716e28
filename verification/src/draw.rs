//! Drawing operations: what has to be drawn over the pixels, as plain data.
//!
//! Lines and text are rasterised outside this library. The library decides
//! what is drawn and where, and hands the decisions out in drawing order.

use vstd::prelude::*;

verus! {

/// One drawing operation, in black.
#[derive(Clone, Debug, PartialEq, Eq)]
pub enum DrawOp {
    /// A straight line from `(x0, y0)` to `(x1, y1)`.
    Line { x0: i32, y0: i32, x1: i32, y1: i32 },
    /// `text` at `size` pixels, its top left corner at `(x, y)`.
    Text { x: i32, y: i32, size: u32, text: String },
}

/// The mathematical content of a drawing operation.
pub enum Stroke {
    /// A straight line from `(x0, y0)` to `(x1, y1)`.
    Line { x0: int, y0: int, x1: int, y1: int },
    /// `text` at `size` pixels, its top left corner at `(x, y)`.
    Text { x: int, y: int, size: nat, text: Seq<char> },
}

impl View for DrawOp {
    type V = Stroke;

    open spec fn view(&self) -> Stroke {
        match self {
            DrawOp::Line { x0, y0, x1, y1 } => Stroke::Line {
                x0: *x0 as int,
                y0: *y0 as int,
                x1: *x1 as int,
                y1: *y1 as int,
            },
            DrawOp::Text { x, y, size, text } => Stroke::Text {
                x: *x as int,
                y: *y as int,
                size: *size as nat,
                text: text@,
            },
        }
    }
}

impl DeepView for DrawOp {
    type V = Stroke;

    open spec fn deep_view(&self) -> Stroke {
        self@
    }
}

/// A line from `(x0, y0)` to `(x1, y1)`.
pub open spec fn spec_line(x0: int, y0: int, x1: int, y1: int) -> Stroke {
    Stroke::Line { x0, y0, x1, y1 }
}

/// `text` at `size` pixels with its top left corner at `(x, y)`.
pub open spec fn spec_text(x: int, y: int, size: nat, text: Seq<char>) -> Stroke {
    Stroke::Text { x, y, size, text }
}

} // verus!
