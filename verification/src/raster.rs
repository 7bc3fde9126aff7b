//! Rasterization: painting a list of rectangles onto a fresh pixel buffer.

use vstd::prelude::*;
use crate::canvas::{
    Fault, covers_before, faults, faults_upto, lemma_covers_before_end, lemma_covers_before_row,
    lemma_covers_before_start, lemma_covers_before_step, painted, painted_pixel, rect_faults,
    row_faults,
};
use crate::command::{Draw, rects_of};
use crate::rect::{Rect, covers};

verus! {

/// A rendered canvas.
pub struct Raster {
    /// The pixel buffer, row after row.
    pub pixels: Vec<u32>,
    /// The writes that fell outside the buffer and were skipped, in the order
    /// in which they were attempted.
    pub faults: Vec<Fault>,
}

/// Paints one rectangle over `pixels`, row by row. A pixel whose position
/// lies beyond the buffer is not written: it is recorded in `faults` instead.
pub fn plot(pixels: &mut Vec<u32>, faults: &mut Vec<Fault>, rect: &Rect, source: usize, width: u32)
    ensures
        final(pixels)@.len() == old(pixels)@.len(),
        forall|index: int|
            0 <= index < old(pixels)@.len() ==> #[trigger] final(pixels)@[index] == (if covers(
                *rect,
                width as int,
                index,
            ) {
                rect.color
            } else {
                old(pixels)@[index]
            }),
        final(faults)@ == old(faults)@ + rect_faults(
            source,
            *rect,
            width as int,
            old(pixels)@.len() as int,
            rect.height as nat,
        ),
{
    let ghost before = pixels@;
    let ghost reported = faults@;
    let ghost len = pixels@.len() as int;
    let mut y_offset: u32 = 0;
    proof {
        assert forall|index: int| 0 <= index < len implies !covers_before(
            *rect,
            width as int,
            index,
            0,
            0,
        ) by {
            lemma_covers_before_start(*rect, width as int, index);
        }
    }
    while y_offset < rect.height
        invariant
            y_offset <= rect.height,
            len == before.len(),
            pixels@.len() == len,
            forall|index: int|
                0 <= index < len ==> #[trigger] pixels@[index] == (if covers_before(
                    *rect,
                    width as int,
                    index,
                    0,
                    y_offset as int,
                ) {
                    rect.color
                } else {
                    before[index]
                }),
            faults@ == reported + rect_faults(source, *rect, width as int, len, y_offset as nat),
        decreases rect.height - y_offset,
    {
        let ghost row_start = faults@;
        let mut x_offset: u32 = 0;
        while x_offset < rect.width
            invariant
                y_offset < rect.height,
                x_offset <= rect.width,
                len == before.len(),
                pixels@.len() == len,
                forall|index: int|
                    0 <= index < len ==> #[trigger] pixels@[index] == (if covers_before(
                        *rect,
                        width as int,
                        index,
                        x_offset as int,
                        y_offset as int,
                    ) {
                        rect.color
                    } else {
                        before[index]
                    }),
                faults@ == row_start + row_faults(
                    source,
                    *rect,
                    width as int,
                    len,
                    y_offset,
                    x_offset as nat,
                ),
            decreases rect.width - x_offset,
        {
            let index = rect.index_of(width, x_offset, y_offset);
            proof {
                assert forall|other: int| 0 <= other < len implies (covers_before(
                    *rect,
                    width as int,
                    other,
                    x_offset + 1,
                    y_offset as int,
                ) <==> (covers_before(*rect, width as int, other, x_offset as int, y_offset as int)
                    || index == other)) by {
                    lemma_covers_before_step(
                        *rect,
                        width as int,
                        other,
                        x_offset as int,
                        y_offset as int,
                    );
                }
            }
            if index < pixels.len() as u128 {
                pixels.set(index as usize, rect.color);
            } else {
                faults.push(Fault { source, x_offset, y_offset });
                assert(faults@ == row_start + row_faults(
                    source,
                    *rect,
                    width as int,
                    len,
                    y_offset,
                    (x_offset + 1) as nat,
                ));
            }
            x_offset = x_offset + 1;
        }
        proof {
            assert forall|index: int| 0 <= index < len implies (covers_before(
                *rect,
                width as int,
                index,
                rect.width as int,
                y_offset as int,
            ) <==> covers_before(*rect, width as int, index, 0, y_offset + 1)) by {
                lemma_covers_before_row(*rect, width as int, index, y_offset as int);
            }
            assert(faults@ == reported + rect_faults(
                source,
                *rect,
                width as int,
                len,
                (y_offset + 1) as nat,
            ));
        }
        y_offset = y_offset + 1;
    }
    proof {
        assert forall|index: int| 0 <= index < len implies (covers_before(
            *rect,
            width as int,
            index,
            0,
            rect.height as int,
        ) <==> covers(*rect, width as int, index)) by {
            lemma_covers_before_end(*rect, width as int, index);
        }
    }
}

/// Paints `draws` in order onto a zeroed canvas of `width` by `height`
/// pixels. Later rectangles overwrite earlier ones where they overlap; writes
/// beyond the buffer are skipped and reported, and painting goes on.
pub fn rasterize(draws: &Vec<Draw>, width: u32, height: u32) -> (raster: Raster)
    requires
        width * height <= u32::MAX,
    ensures
        raster.pixels@ == painted(rects_of(draws@), width as int, height as int),
        raster.faults@ == faults(rects_of(draws@), width as int, height as int),
{
    let size: u64 = width as u64 * height as u64;
    let mut pixels: Vec<u32> = vec![0u32; size as usize];
    let mut skipped: Vec<Fault> = Vec::new();
    let ghost rects = rects_of(draws@);
    let ghost len = width as int * height as int;
    let mut position: usize = 0;
    while position < draws.len()
        invariant
            position <= draws.len(),
            rects == rects_of(draws@),
            len == width as int * height as int,
            pixels@.len() == len,
            forall|index: int|
                0 <= index < len ==> #[trigger] pixels@[index] == painted_pixel(
                    rects.take(position as int),
                    width as int,
                    index,
                ),
            skipped@ == faults_upto(rects, width as int, len, position as nat),
        decreases draws.len() - position,
    {
        let rect = draws[position].rect;
        proof {
            let grown = rects.take(position + 1);
            assert(grown.last() == rect);
            assert(grown.drop_last() == rects.take(position as int));
        }
        plot(&mut pixels, &mut skipped, &rect, position, width);
        position = position + 1;
    }
    proof {
        assert(rects.take(position as int) == rects);
        assert(pixels@ == painted(rects, width as int, height as int));
    }
    Raster { pixels, faults: skipped }
}

} // verus!
