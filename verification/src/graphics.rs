//! Drawing through EGL: the context, and the surface that a window hands over
//! once it is mapped.

pub mod context;
pub mod render;

pub use context::Context;
pub use render::Render;
