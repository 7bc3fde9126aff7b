//! The mathematical model of a rendered canvas: what each pixel holds after a
//! list of rectangles was painted in order, and which writes fell outside.

use vstd::prelude::*;
use crate::rect::{Rect, pixel_index, in_rect, covers};

verus! {

/// A pixel write that fell outside the buffer and was skipped.
#[derive(Clone, Copy, Debug, PartialEq, Eq, Structural)]
pub struct Fault {
    /// The position, in the rendered list, of the rectangle that caused it.
    pub source: usize,
    /// The column of the skipped pixel inside that rectangle.
    pub x_offset: u32,
    /// The row of the skipped pixel inside that rectangle.
    pub y_offset: u32,
}

/// The color at position `index` after `rects` were painted in order onto a
/// zeroed buffer: that of the last rectangle with a pixel there, else zero.
pub open spec fn painted_pixel(rects: Seq<Rect>, width: int, index: int) -> u32
    decreases rects.len(),
{
    if rects.len() == 0 {
        0
    } else if covers(rects.last(), width, index) {
        rects.last().color
    } else {
        painted_pixel(rects.drop_last(), width, index)
    }
}

/// The whole buffer of a `width` by `height` canvas after `rects` were
/// painted in order.
pub open spec fn painted(rects: Seq<Rect>, width: int, height: int) -> Seq<u32> {
    Seq::new((width * height) as nat, |index: int| painted_pixel(rects, width, index))
}

/// Whether a pixel of `rect` that comes before `(x_upto, y_upto)` in raster
/// order (rows top to bottom, each left to right) is written to `index`.
pub open spec fn covers_before(
    rect: Rect,
    width: int,
    index: int,
    x_upto: int,
    y_upto: int,
) -> bool {
    exists|x_offset: int, y_offset: int|
        in_rect(rect, x_offset, y_offset) && (y_offset < y_upto || (y_offset == y_upto && x_offset
            < x_upto)) && #[trigger] pixel_index(rect, width, x_offset, y_offset) == index
}

/// The faults of the first `x_upto` pixels of row `y_offset` of `rect`, the
/// rectangle at position `source`, on a buffer of `len` entries.
pub open spec fn row_faults(
    source: usize,
    rect: Rect,
    width: int,
    len: int,
    y_offset: u32,
    x_upto: nat,
) -> Seq<Fault>
    decreases x_upto,
{
    if x_upto == 0 {
        Seq::empty()
    } else {
        let before = row_faults(source, rect, width, len, y_offset, (x_upto - 1) as nat);
        if pixel_index(rect, width, x_upto - 1, y_offset as int) >= len {
            before.push(Fault { source, x_offset: (x_upto - 1) as u32, y_offset })
        } else {
            before
        }
    }
}

/// The faults of the first `y_upto` rows of `rect`, in raster order.
pub open spec fn rect_faults(source: usize, rect: Rect, width: int, len: int, y_upto: nat) -> Seq<
    Fault,
>
    decreases y_upto,
{
    if y_upto == 0 {
        Seq::empty()
    } else {
        rect_faults(source, rect, width, len, (y_upto - 1) as nat) + row_faults(
            source,
            rect,
            width,
            len,
            (y_upto - 1) as u32,
            rect.width as nat,
        )
    }
}

/// The faults of the first `upto` rectangles of `rects`, in paint order.
pub open spec fn faults_upto(rects: Seq<Rect>, width: int, len: int, upto: nat) -> Seq<Fault>
    decreases upto,
{
    if upto == 0 {
        Seq::empty()
    } else {
        faults_upto(rects, width, len, (upto - 1) as nat) + rect_faults(
            (upto - 1) as usize,
            rects[upto - 1],
            width,
            len,
            rects[upto - 1].height as nat,
        )
    }
}

/// Every skipped write of painting `rects` onto a `width` by `height` canvas,
/// in the order in which the writes were attempted.
pub open spec fn faults(rects: Seq<Rect>, width: int, height: int) -> Seq<Fault> {
    faults_upto(rects, width, width * height, rects.len())
}

/// Nothing is covered before the first pixel.
pub proof fn lemma_covers_before_start(rect: Rect, width: int, index: int)
    ensures
        !covers_before(rect, width, index, 0, 0),
{
}

/// Taking one more pixel of a row adds exactly that pixel's position.
pub proof fn lemma_covers_before_step(
    rect: Rect,
    width: int,
    index: int,
    x_offset: int,
    y_offset: int,
)
    requires
        in_rect(rect, x_offset, y_offset),
    ensures
        covers_before(rect, width, index, x_offset + 1, y_offset) <==> (covers_before(
            rect,
            width,
            index,
            x_offset,
            y_offset,
        ) || pixel_index(rect, width, x_offset, y_offset) == index),
{
    if pixel_index(rect, width, x_offset, y_offset) == index {
        assert(covers_before(rect, width, index, x_offset + 1, y_offset));
    }
}

/// A finished row covers what the start of the next row covers.
pub proof fn lemma_covers_before_row(rect: Rect, width: int, index: int, y_offset: int)
    ensures
        covers_before(rect, width, index, rect.width as int, y_offset) <==> covers_before(
            rect,
            width,
            index,
            0,
            y_offset + 1,
        ),
{
}

/// After the last row, everything the rectangle covers is covered.
pub proof fn lemma_covers_before_end(rect: Rect, width: int, index: int)
    ensures
        covers_before(rect, width, index, 0, rect.height as int) <==> covers(rect, width, index),
{
}

} // verus!
