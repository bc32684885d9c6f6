//! The render controller: it takes what the window reports of its EGL surface
//! and says when the scene is to be drawn.

use vstd::prelude::*;
use crate::graphics::context::Context;
use crate::graphics::render::Render;

verus! {

/// What a window reports of its EGL surface, given by its address.
#[derive(Clone, Copy, Debug, PartialEq, Eq, Structural)]
pub enum EglEvent {
    /// The window was mapped and has this surface.
    Mapped(usize),
    /// The window wants to be painted again, on this surface.
    Repaint(usize),
}

impl EglEvent {
    /// The surface that the event brings.
    pub open spec fn surface(self) -> usize {
        match self {
            EglEvent::Mapped(surface) => surface,
            EglEvent::Repaint(surface) => surface,
        }
    }
}

/// Render controller.
pub struct Renderer {
    /// Render surface.
    surface: Render,
}

impl Renderer {
    /// The render surface.
    pub closed spec fn render_surface(&self) -> Render {
        self.surface
    }

    /// A controller for a render surface on `context`, which has no EGL
    /// surface yet.
    pub fn new(context: &Context) -> (renderer: Renderer)
        ensures
            renderer.render_surface().held_context() == *context,
            renderer.render_surface().surface() is None,
    {
        Renderer { surface: Render::new(context) }
    }

    /// The render surface.
    pub fn surface(&self) -> (surface: &Render)
        ensures
            *surface == self.render_surface(),
    {
        &self.surface
    }

    /// Whether the scene is to be rendered now: it is when the surface is ready.
    pub fn render(&self) -> (draw: bool)
        ensures
            draw == self.render_surface().surface() is Some,
    {
        self.surface.ready()
    }

    /// Takes the surface that the window reports and says whether the scene is
    /// to be rendered on it: it is unless the surface is null.
    pub fn handle(&mut self, e: EglEvent) -> (draw: bool)
        ensures
            final(self).render_surface().held_context() == old(self).render_surface().held_context(),
            final(self).render_surface().surface() == (if e.surface() == 0 {
                None
            } else {
                Some(e.surface())
            }),
            draw == (e.surface() != 0),
    {
        match e {
            EglEvent::Mapped(egl_surface) => {
                self.surface.set_egl(egl_surface);
                self.render()
            },
            EglEvent::Repaint(egl_surface) => {
                self.surface.set_egl(egl_surface);
                self.render()
            },
        }
    }
}

} // verus!
