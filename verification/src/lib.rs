//! A queue-driven graphics backend: drawing handles build commands, a single
//! backend applies them in arrival order and rasterizes on request.

pub mod backend;
pub mod canvas;
pub mod command;
pub mod laws;
pub mod memory;
pub mod raster;
pub mod rect;
pub mod renderer;
pub mod shorten;
pub mod trace;
