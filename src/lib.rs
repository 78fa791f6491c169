//! Replays captured terminal output: an ANSI/VT interpreter over a grid of
//! styled cells, a rasterizer for that grid, and the assembly of a timed
//! sequence of frames.

pub mod colors;
pub mod glyphs;
pub mod params;
pub mod model;
pub mod terminal;
pub mod raster;
pub mod recording;
pub mod timeline;
