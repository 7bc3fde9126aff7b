//! The commands that drawing handles send to the backend.

use vstd::prelude::*;
use backtrace::Backtrace;
use crate::rect::Rect;

verus! {

/// A rectangle waiting to be rendered, with the trace of the call that drew it.
pub struct Draw {
    /// The rectangle to paint.
    pub rect: Rect,
    /// The calling context that asked for it.
    pub trace: Backtrace,
}

/// One request to the backend.
pub enum Command {
    /// Draw a rectangle.
    Rect(Rect, Backtrace),
    /// Hand out a pixel buffer with everything drawn since the last one.
    Render(Backtrace),
}

/// The rectangles of a list of draws, in the same order.
pub open spec fn rects_of(draws: Seq<Draw>) -> Seq<Rect> {
    Seq::new(draws.len(), |position: int| draws[position].rect)
}

impl Command {
    /// The rectangle that this command draws, if it draws one.
    pub open spec fn drawn(self) -> Option<Rect> {
        match self {
            Command::Rect(rect, _) => Some(rect),
            Command::Render(_) => None,
        }
    }
}

} // verus!
