//! A text console that draws glyphs into a pixel framebuffer: it wraps long
//! lines, scrolls when text reaches the bottom edge, and switches between a
//! normal and an accent color on backslash escapes.

pub mod font;
pub mod laws;
pub mod model;
pub mod writer;
