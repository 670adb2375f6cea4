//! Graphics subsystem: colours, the bitmap font and the software renderer.

pub mod canvas;
pub mod color;
pub mod font;
pub mod renderer;
