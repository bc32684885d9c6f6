//! The render surface: an EGL context and, while the window is mapped, the
//! EGL surface to draw on.

use vstd::prelude::*;
use crate::graphics::context::Context;

verus! {

/// What to hand to EGL to make a context current on a surface.
#[derive(Clone, Copy, Debug, PartialEq, Eq, Structural)]
pub struct MakeCurrent {
    pub display: usize,
    pub draw: usize,
    pub read: usize,
    pub context: usize,
}

/// What to hand to EGL to put a surface's back buffer on screen.
#[derive(Clone, Copy, Debug, PartialEq, Eq, Structural)]
pub struct SwapBuffers {
    pub display: usize,
    pub surface: usize,
}

/// Render surface.
pub struct Render {
    context: Context,
    surface: Option<usize>,
}

impl Render {
    /// The context of the render surface.
    pub closed spec fn held_context(&self) -> Context {
        self.context
    }

    /// The EGL surface to draw on, by its address, if there is one.
    pub closed spec fn surface(&self) -> Option<usize> {
        self.surface
    }

    /// Create a new render surface for the given context. It has no EGL
    /// surface yet.
    pub fn new(context: &Context) -> (render: Render)
        ensures
            render.held_context() == *context,
            render.surface() is None,
    {
        Render { context: *context, surface: None }
    }

    pub fn context(&self) -> (context: &Context)
        ensures
            *context == self.held_context(),
    {
        &self.context
    }

    /// Takes the EGL surface that the window handed over. The null surface
    /// stands for none.
    pub fn set_egl(&mut self, surface: usize)
        ensures
            final(self).held_context() == old(self).held_context(),
            final(self).surface() == (if surface == 0 {
                None
            } else {
                Some(surface)
            }),
    {
        if surface == 0 {
            self.surface = None
        } else {
            self.surface = Some(surface);
        }
    }

    /// Whether there is an EGL surface to draw on.
    pub fn ready(&self) -> (ready: bool)
        ensures
            ready == self.surface() is Some,
    {
        self.surface.is_some()
    }

    /// What to make current before drawing: the context, on the surface, for
    /// drawing and reading alike. There has to be a surface.
    pub fn bind(&self) -> (call: MakeCurrent)
        requires
            self.surface() is Some,
        ensures
            call == (MakeCurrent {
                display: self.held_context().display,
                draw: self.surface()->0,
                read: self.surface()->0,
                context: self.held_context().handle,
            }),
    {
        let handle = match self.surface {
            Some(handle) => handle,
            None => 0,
        };
        MakeCurrent { display: self.context.display, draw: handle, read: handle, context: self.context.handle }
    }

    /// What to swap once drawing is over; nothing where there is no surface.
    pub fn release(&self) -> (call: Option<SwapBuffers>)
        ensures
            call == (match self.surface() {
                Some(surface) => Some(SwapBuffers { display: self.held_context().display, surface }),
                None => None,
            }),
    {
        match self.surface {
            Some(surface) => Some(SwapBuffers { display: self.context.display, surface }),
            None => None,
        }
    }
}

} // verus!
