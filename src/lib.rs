//! GPU resource and render-target management: textures, cube maps, render
//! targets, buffers and programs that record their work as device commands
//! on a shared [`Context`](context::Context), which a device executor runs.

pub mod error;
pub mod format;
pub mod state;
pub mod context;
pub mod texture;
pub mod render_target;
pub mod cube_map_target;
pub mod buffer;
pub mod program;
