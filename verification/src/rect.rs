//! Solid rectangles and the buffer positions their pixels fall on.

use vstd::prelude::*;

verus! {

/// A solid, axis-aligned rectangle. Nothing is validated when one is built:
/// it may reach beyond any canvas.
#[derive(Clone, Copy, Debug, PartialEq, Eq, Structural)]
pub struct Rect {
    /// The leftmost column of the rectangle.
    pub x: u32,
    /// The topmost row of the rectangle.
    pub y: u32,
    /// The width of the rectangle.
    pub width: u32,
    /// The height of the rectangle.
    pub height: u32,
    /// The fill color of the rectangle.
    pub color: u32,
}

/// The position in a row-major buffer with rows of `width` entries that the
/// pixel at offset `(x_offset, y_offset)` inside `rect` is written to.
pub open spec fn pixel_index(rect: Rect, width: int, x_offset: int, y_offset: int) -> int {
    (rect.y + y_offset) * width + (rect.x + x_offset)
}

/// Whether `(x_offset, y_offset)` is the offset of a pixel of `rect`.
pub open spec fn in_rect(rect: Rect, x_offset: int, y_offset: int) -> bool {
    0 <= x_offset < rect.width && 0 <= y_offset < rect.height
}

/// Whether some pixel of `rect` is written to position `index`.
pub open spec fn covers(rect: Rect, width: int, index: int) -> bool {
    exists|x_offset: int, y_offset: int|
        in_rect(rect, x_offset, y_offset) && #[trigger] pixel_index(
            rect,
            width,
            x_offset,
            y_offset,
        ) == index
}

impl Rect {
    /// The buffer position of the pixel at `(x_offset, y_offset)` inside this
    /// rectangle, on a canvas whose rows hold `width` entries.
    pub fn index_of(&self, width: u32, x_offset: u32, y_offset: u32) -> (index: u128)
        ensures
            index == pixel_index(*self, width as int, x_offset as int, y_offset as int),
    {
        let row: u128 = self.y as u128 + y_offset as u128;
        let column: u128 = self.x as u128 + x_offset as u128;
        assert(row * (width as u128) <= 0x2_0000_0000 * 0x1_0000_0000) by (nonlinear_arith)
            requires
                row <= 0x2_0000_0000,
                width <= 0x1_0000_0000,
        ;
        row * (width as u128) + column
    }
}

} // verus!
