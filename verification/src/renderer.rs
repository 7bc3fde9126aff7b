//! The drawing handle: it keeps a color and an origin, and turns drawing
//! calls into commands for the backend.

use vstd::prelude::*;
use crate::backend::{Backend, BackendState};
use crate::command::Command;
use crate::rect::Rect;
use crate::trace::capture;

verus! {

/// A handle for drawing on a canvas. Each handle keeps its own color and
/// origin; the commands it builds are sent to the backend by its owner.
#[derive(Clone, Copy, Debug, PartialEq, Eq, Structural)]
pub struct Renderer {
    /// The current color for any graphics operations.
    pub color: u32,
    /// The current x origin for any graphics operations.
    pub x: u32,
    /// The current y origin for any graphics operations.
    pub y: u32,
    /// The width of the canvas.
    pub width: u32,
    /// The height of the canvas.
    pub height: u32,
}

impl Renderer {
    /// The rectangle of the given size at the current origin, in the current
    /// color.
    pub open spec fn rect_at_origin(self, width: u32, height: u32) -> Rect {
        Rect { x: self.x, y: self.y, width, height, color: self.color }
    }

    /// Set the current color.
    pub fn set_color(&mut self, color: u32)
        ensures
            *final(self) == (Renderer { color, ..*old(self) }),
    {
        self.color = color;
    }

    /// Set the current x and y origins.
    pub fn set_origin(&mut self, x: u32, y: u32)
        ensures
            *final(self) == (Renderer { x, y, ..*old(self) }),
    {
        self.x = x;
        self.y = y;
    }

    /// The command that draws a square with the provided side length.
    pub fn square(&self, length: u32) -> (command: Command)
        ensures
            command.drawn() == Some(self.rect_at_origin(length, length)),
    {
        Command::Rect(
            Rect { x: self.x, y: self.y, width: length, height: length, color: self.color },
            capture(),
        )
    }

    /// The command that draws a rectangle of the provided size.
    pub fn rect(&self, width: u32, height: u32) -> (command: Command)
        ensures
            command.drawn() == Some(self.rect_at_origin(width, height)),
    {
        Command::Rect(
            Rect { x: self.x, y: self.y, width, height, color: self.color },
            capture(),
        )
    }

    /// Whether a horizontal line of the provided length, drawn from the
    /// current origin, ends before the right edge of the canvas.
    pub fn fits_row(&self, length: u32) -> (fits: bool)
        ensures
            fits == (self.x + length < self.width),
    {
        (self.x as u64) + (length as u64) < self.width as u64
    }

    /// Whether a vertical line of the provided length, drawn from the
    /// current origin, ends before the bottom edge of the canvas.
    pub fn fits_column(&self, length: u32) -> (fits: bool)
        ensures
            fits == (self.y + length < self.height),
    {
        (self.y as u64) + (length as u64) < self.height as u64
    }

    /// The command that draws a horizontal line of the provided length, one
    /// pixel high. The line must end before the right edge of the canvas.
    pub fn horizontal_line(&self, length: u32) -> (command: Command)
        requires
            self.x + length < self.width,
        ensures
            command.drawn() == Some(self.rect_at_origin(length, 1)),
    {
        Command::Rect(
            Rect { x: self.x, y: self.y, width: length, height: 1, color: self.color },
            capture(),
        )
    }

    /// The command that draws a vertical line of the provided length, one
    /// pixel wide. The line must end before the bottom edge of the canvas.
    pub fn vertical_line(&self, length: u32) -> (command: Command)
        requires
            self.y + length < self.height,
        ensures
            command.drawn() == Some(self.rect_at_origin(1, length)),
    {
        Command::Rect(
            Rect { x: self.x, y: self.y, width: 1, height: length, color: self.color },
            capture(),
        )
    }

    /// The command that asks for the pixels of all drawing operations since
    /// the previous such request, or since the backend was created.
    pub fn get_pixels(&self) -> (command: Command)
        ensures
            command is Render,
    {
        Command::Render(capture())
    }
}

/// A renderer for a canvas of `width` by `height` pixels, with the color and
/// the origin at zero, and the backend that its commands are meant for.
pub fn create_renderer(width: u32, height: u32) -> (created: (Renderer, Backend))
    requires
        width * height <= u32::MAX,
    ensures
        created.0 == (Renderer { color: 0, x: 0, y: 0, width, height }),
        created.1.wf(),
        created.1@ == (BackendState { width, height, pending: Seq::empty() }),
{
    (Renderer { color: 0, x: 0, y: 0, width, height }, Backend::new(width, height))
}

} // verus!
