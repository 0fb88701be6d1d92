//! A retro-style 2D scene engine: a scrolling, wrapping tile grid and a layer
//! of free sprites, both described as plain data and turned, frame by frame,
//! into the instance buffers and draw parameters that a GPU back end consumes.

pub mod attributes;
pub mod buffer;
pub mod graphics;
pub mod resources;
pub mod screen;
pub mod sprites;
pub mod tilemap;
