//! Frame composition and fixed-point motion for a 2D tile engine.

pub mod blend;
pub mod raster;
pub mod tiles;
pub mod render;
pub mod sprite;
pub mod actor;
pub mod frame;
pub mod resolution;
pub mod fps;
