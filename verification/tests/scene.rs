use presenter::graphics::render::{MakeCurrent, SwapBuffers};
use presenter::graphics::{Context, Render};
use presenter::pov::{Pov, SceneEvent};
use presenter::renderer::{EglEvent, Renderer};

#[test]
fn new_pov_sees_nothing() {
    let pov = Pov::new();
    assert!(!pov.is_visible(0));
    assert!(!pov.is_visible(42));
}

#[test]
fn pov_cycle_follows_the_scene() {
    let mut pov = Pov::new();
    pov.cycle(&vec![SceneEvent::New(1), SceneEvent::New(2), SceneEvent::Drop(1), SceneEvent::New(3)]);
    assert!(!pov.is_visible(1));
    assert!(pov.is_visible(2));
    assert!(pov.is_visible(3));
    pov.cycle(&vec![SceneEvent::Drop(7), SceneEvent::Drop(2), SceneEvent::New(2), SceneEvent::New(2)]);
    assert!(pov.is_visible(2));
    assert!(pov.is_visible(3));
    assert!(!pov.is_visible(7));
    pov.cycle(&vec![SceneEvent::New(9), SceneEvent::Drop(9)]);
    assert!(!pov.is_visible(9));
    pov.cycle(&Vec::new());
    assert!(pov.is_visible(3));
}

#[test]
fn render_surface_is_ready_once_it_has_a_surface() {
    let context = Context::new(0x1000, 0x2000, 0x3000);
    let mut render = Render::new(&context);
    assert_eq!(*render.context(), context);
    assert!(!render.ready());
    assert_eq!(render.release(), None);
    render.set_egl(0x4000);
    assert!(render.ready());
    assert_eq!(
        render.bind(),
        MakeCurrent { display: 0x1000, draw: 0x4000, read: 0x4000, context: 0x3000 }
    );
    assert_eq!(render.release(), Some(SwapBuffers { display: 0x1000, surface: 0x4000 }));
    render.set_egl(0);
    assert!(!render.ready());
    assert_eq!(render.release(), None);
    assert_eq!(*render.context(), context);
}

#[test]
fn renderer_draws_when_the_window_hands_over_a_surface() {
    let context = Context::new(1, 2, 3);
    let mut renderer = Renderer::new(&context);
    assert!(!renderer.render());
    assert!(renderer.handle(EglEvent::Mapped(0x50)));
    assert!(renderer.render());
    assert_eq!(renderer.surface().release(), Some(SwapBuffers { display: 1, surface: 0x50 }));
    assert!(renderer.handle(EglEvent::Repaint(0x60)));
    assert_eq!(renderer.surface().release(), Some(SwapBuffers { display: 1, surface: 0x60 }));
    assert!(!renderer.handle(EglEvent::Repaint(0)));
    assert!(!renderer.render());
    assert!(!renderer.handle(EglEvent::Mapped(0)));
}
