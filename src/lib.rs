//! The integer core of a path-tracing renderer: vectors over any scalar, colour
//! text, frame buffers and their byte layout, image rasters, the pixel order of
//! the samplers, the bookkeeping of a render split among workers, and the list
//! of scenes.

pub mod color;
pub mod frame_buffer;
pub mod image;
pub mod render;
pub mod scene;
pub mod vector;
