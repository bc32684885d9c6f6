//! What can go wrong while building the presentation objects or presenting a
//! frame, and how much of it the caller gets to see.

use vstd::prelude::*;

verus! {

/// Reason for which the device or the surface refused an operation.
#[derive(Clone, Copy, Debug, PartialEq, Eq, Structural)]
pub enum Failure {
    /// The device cannot use a format the way the render pass needs it.
    UnsupportedFormat,
    /// The device has no memory left for an attachment.
    OutOfDeviceMemory,
    /// The surface is gone.
    SurfaceLost,
    /// The surface offers no format and color space pair that the render pass
    /// can draw into. This is a configuration mistake and is never retried.
    UnsupportedSurfaceFormat,
    /// The device is gone.
    DeviceLost,
}

/// Part of the presentation cycle in which a fatal error came up.
#[derive(Clone, Copy, Debug, PartialEq, Eq, Structural)]
pub enum Stage {
    Build,
    Rebuild,
    Acquire,
    Submit,
    Present,
}

/// A terminal error. After it the engine makes no further progress and has to
/// be constructed anew.
#[derive(Clone, Copy, Debug, PartialEq, Eq, Structural)]
pub struct Fatal {
    pub stage: Stage,
    pub cause: Failure,
}

/// Failure reported by the scene drawing callback, kept as the code it gave.
#[derive(Clone, Copy, Debug, PartialEq, Eq, Structural)]
pub struct DrawError {
    pub code: u32,
}

/// Outcome of a render call that did not present a frame.
#[derive(Clone, Copy, Debug, PartialEq, Eq, Structural)]
pub enum RenderError {
    /// The drawing callback failed: the frame was dropped and the engine is as
    /// it was, so the next call starts afresh.
    Draw(DrawError),
    /// The engine stopped for good.
    Fatal(Fatal),
}

impl RenderError {
    /// Whether the engine can go on after this error.
    pub open spec fn recoverable(self) -> bool {
        self is Draw
    }

    /// Whether the engine can go on after this error.
    pub fn is_recoverable(&self) -> (yes: bool)
        ensures
            yes == self.recoverable(),
    {
        match self {
            RenderError::Draw(_) => true,
            RenderError::Fatal(_) => false,
        }
    }

    /// Stage at which a fatal error came up; none for a dropped frame.
    pub fn stage(&self) -> (stage: Option<Stage>)
        ensures
            stage == (match *self {
                RenderError::Draw(_) => None,
                RenderError::Fatal(fatal) => Some(fatal.stage),
            }),
    {
        match self {
            RenderError::Draw(_) => None,
            RenderError::Fatal(fatal) => Some(fatal.stage),
        }
    }
}

} // verus!
