//! Frame presentation and swapchain synchronisation for an interactive
//! renderer.
//!
//! The library never touches a graphics device. It owns the description of the
//! on-screen image chain, decides when the chain has to be rebuilt, and says
//! which platform operation comes next; the embedding program performs that
//! operation and reports what happened.
//!
//! - `surface` is the entry point: a presentation surface made of the device,
//!   the render pass and the frame scheduler.
//! - `scheduler` holds the state machine that takes a frame from the render
//!   request to its present, and `trace` what is proved of whole runs of it.
//! - `chain`, `attachment` and `render_pass` describe the objects a frame is
//!   drawn with; `device`, `format`, `extent` and `error` the values they are
//!   made of.
//! - `pov` keeps track of the objects of the scene that are to be drawn.
//! - `graphics` and `renderer` serve a window that is drawn through EGL.

pub mod attachment;
pub mod chain;
pub mod device;
pub mod error;
pub mod extent;
pub mod format;
pub mod graphics;
pub mod pov;
pub mod render_pass;
pub mod renderer;
pub mod scheduler;
pub mod surface;
pub mod trace;
