//! The backend: the single owner of the canvas size and of the rectangles
//! that wait to be rendered. It applies commands one at a time, in the order
//! in which they arrive.

use vstd::prelude::*;
use backtrace::Backtrace;
use crate::canvas::{Fault, faults, painted};
use crate::command::{Command, Draw, rects_of};
use crate::raster::rasterize;
use crate::rect::Rect;

verus! {

/// What a backend is, to its contracts: the canvas size and the draws that
/// arrived since the last render, oldest first.
pub struct BackendState {
    pub width: u32,
    pub height: u32,
    pub pending: Seq<Draw>,
}

/// The state of a rendering backend.
pub struct Backend {
    width: u32,
    height: u32,
    pending: Vec<Draw>,
}

/// The answer to a render request.
pub struct Frame {
    /// The pixel buffer, row after row.
    pub pixels: Vec<u32>,
    /// The draws that were rendered, oldest first, each with its trace.
    pub drawn: Vec<Draw>,
    /// The skipped writes; `source` is a position in `drawn`.
    pub faults: Vec<Fault>,
}

/// What the backend did with a command.
pub enum Reply {
    /// The rectangle was queued; nothing is to be sent.
    Queued,
    /// The canvas was rendered; the frame goes to whoever asked.
    Rendered(Frame),
}

impl BackendState {
    /// The state after one more rectangle was queued.
    pub open spec fn queue(self, draw: Draw) -> BackendState {
        BackendState { pending: self.pending.push(draw), ..self }
    }

    /// The state after a render: nothing is pending any more.
    pub open spec fn flushed(self) -> BackendState {
        BackendState { pending: Seq::empty(), ..self }
    }

    /// The pixel buffer that a render in this state hands out.
    pub open spec fn pixels(self) -> Seq<u32> {
        painted(rects_of(self.pending), self.width as int, self.height as int)
    }

    /// The skipped writes that a render in this state reports.
    pub open spec fn faults(self) -> Seq<Fault> {
        faults(rects_of(self.pending), self.width as int, self.height as int)
    }

    /// The state after `command` was applied.
    pub open spec fn after(self, command: Command) -> BackendState {
        match command {
            Command::Rect(rect, trace) => self.queue(Draw { rect, trace }),
            Command::Render(_) => self.flushed(),
        }
    }

    /// The state after `commands` were applied, first to last.
    pub open spec fn after_all(self, commands: Seq<Command>) -> BackendState
        decreases commands.len(),
    {
        if commands.len() == 0 {
            self
        } else {
            self.after_all(commands.drop_last()).after(commands.last())
        }
    }
}

impl View for Backend {
    type V = BackendState;

    closed spec fn view(&self) -> BackendState {
        BackendState { width: self.width, height: self.height, pending: self.pending@ }
    }
}

impl Backend {
    /// The buffer of the canvas can be allocated and indexed.
    pub open spec fn wf(&self) -> bool {
        self@.width * self@.height <= u32::MAX
    }

    /// A backend for a canvas of `width` by `height` pixels, with nothing drawn.
    pub fn new(width: u32, height: u32) -> (backend: Backend)
        requires
            width * height <= u32::MAX,
        ensures
            backend.wf(),
            backend@ == (BackendState { width, height, pending: Seq::empty() }),
    {
        Backend { width, height, pending: Vec::new() }
    }

    /// The width of the canvas.
    pub fn width(&self) -> (width: u32)
        ensures
            width == self@.width,
    {
        self.width
    }

    /// The height of the canvas.
    pub fn height(&self) -> (height: u32)
        ensures
            height == self@.height,
    {
        self.height
    }

    /// How many rectangles wait for the next render.
    pub fn pending_len(&self) -> (count: usize)
        ensures
            count == self@.pending.len(),
    {
        self.pending.len()
    }

    /// Queues a rectangle for the next render. Nothing is painted or checked
    /// against the canvas yet.
    pub fn draw(&mut self, rect: Rect, trace: Backtrace)
        requires
            old(self).wf(),
        ensures
            final(self).wf(),
            final(self)@ == old(self)@.queue(Draw { rect, trace }),
    {
        self.pending.push(Draw { rect, trace });
    }

    /// Renders everything drawn since the last render and forgets it: the
    /// next render starts from an empty canvas.
    pub fn render(&mut self) -> (frame: Frame)
        requires
            old(self).wf(),
        ensures
            final(self).wf(),
            final(self)@ == old(self)@.flushed(),
            frame.drawn@ == old(self)@.pending,
            frame.pixels@ == old(self)@.pixels(),
            frame.faults@ == old(self)@.faults(),
    {
        let mut drawn: Vec<Draw> = Vec::new();
        std::mem::swap(&mut self.pending, &mut drawn);
        let raster = rasterize(&drawn, self.width, self.height);
        Frame { pixels: raster.pixels, drawn, faults: raster.faults }
    }

    /// Applies one command: a rectangle is queued, a render request is
    /// answered with the frame.
    pub fn apply(&mut self, command: Command) -> (reply: Reply)
        requires
            old(self).wf(),
        ensures
            final(self).wf(),
            final(self)@ == old(self)@.after(command),
            match reply {
                Reply::Queued => command.drawn() is Some,
                Reply::Rendered(frame) => command.drawn() is None && frame.drawn@ == old(
                    self,
                )@.pending && frame.pixels@ == old(self)@.pixels() && frame.faults@ == old(
                    self,
                )@.faults(),
            },
    {
        match command {
            Command::Rect(rect, trace) => {
                self.draw(rect, trace);
                Reply::Queued
            },
            Command::Render(_) => Reply::Rendered(self.render()),
        }
    }
}

} // verus!
