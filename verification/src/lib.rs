//! Rendering of raster images as coloured glyph art for a terminal.
//!
//! An image is fitted to the width of the terminal ([`resize`]), each of
//! its pixels is turned into a cell that carries the pixel's colour and a
//! glyph chosen by its brightness ([`ramp`], [`glyph`]), and the grid of
//! cells is turned into the operations that draw it ([`render`],
//! [`terminal`]). For a video the same is done frame by frame, on the
//! alternate screen and at a steady pace ([`playback`], [`frames`],
//! [`guards`]).
//!
//! The library computes and decides; it neither reads files nor writes to
//! the terminal. Its callers decode the images, carry out the operations
//! and report what came of them.

pub mod frames;
pub mod glyph;
pub mod guards;
pub mod playback;
pub mod ramp;
pub mod raster;
pub mod render;
pub mod resize;
pub mod terminal;
pub mod text;
