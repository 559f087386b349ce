//! Planning and bookkeeping for drawing text with a signed-distance-field
//! font.
//!
//! Rasterizing glyphs, packing an atlas, uploading textures, compiling shaders
//! and drawing are the work of a graphics backend. This library decides what
//! the backend is asked to do, what is made of each answer, and which backend
//! allocations are owed a release; the caller carries the requests out.
//!
//! - [`glyph`]: what the glyph rasterizer is asked, and the taking over of
//!   the array that it hands back.
//! - [`font`]: the load of the font and its shader, one backend answer at a
//!   time.
//! - [`render`]: the render loop, from the first frame to the closing of the
//!   window.
//! - [`resource`]: the backend allocations that the caller unloads when told.

pub mod font;
pub mod glyph;
pub mod render;
pub mod resource;
