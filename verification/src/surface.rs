//! The presentation surface: what a program holds to get frames on screen.
//!
//! It puts together the device, the render pass and the frame scheduler. A
//! program builds one, starts each frame with `render`, and passes on what the
//! platform reports with `resume` until the frame is over.

use vstd::prelude::*;
use crate::chain::SurfaceCapabilities;
use crate::device::{Device, Queues};
use crate::error::{Failure, Fatal, Stage};
use crate::extent::Extent;
use crate::format::{is_first_presentable, select_surface_format, Format, SurfaceFormat};
use crate::render_pass::RenderPassDescriptor;
use crate::scheduler::{Action, Event, EventView, FrameFuture, FrameScheduler, SchedulerView};

verus! {

/// The presentation surface.
pub struct Surface {
    device: Device,
    scheduler: FrameScheduler,
}

/// Some pair of `formats` is one that the engine presents in.
pub open spec fn offers_presentable(formats: Seq<SurfaceFormat>) -> bool {
    exists|i: int| 0 <= i < formats.len() && (#[trigger] formats[i]).presentable()
}

/// The pair that the engine presents in on a surface that offers `formats`:
/// the first that it can present in.
pub open spec fn picked(formats: Seq<SurfaceFormat>) -> SurfaceFormat {
    formats[choose|i: int| is_first_presentable(formats, i)]
}

impl Surface {
    /// The scheduler behind the surface.
    pub closed spec fn state(&self) -> SchedulerView {
        self.scheduler@
    }

    /// The color formats that the device accepts.
    pub closed spec fn color_formats(&self) -> Seq<Format> {
        self.device.color_formats()
    }

    /// The depth formats that the device accepts.
    pub closed spec fn depth_formats(&self) -> Seq<Format> {
        self.device.depth_formats()
    }

    /// Puts a presentation surface together for a device and a surface with
    /// the given capabilities.
    ///
    /// The color format is that of the first pair the surface offers that the
    /// engine can present in. Where there is no such pair the result is the
    /// fatal error `UnsupportedSurfaceFormat`; where the device rejects that
    /// format for color, or `depth_format` for depth, it is `UnsupportedFormat`.
    /// Both come from the stage `Build`. Otherwise the render pass is built for
    /// the two formats and the scheduler is idle.
    pub fn new(device: Device, queues: Queues, capabilities: &SurfaceCapabilities, depth_format: Format) -> (built:
        Result<Surface, Fatal>)
        ensures
            built is Ok <==> ({
                &&& offers_presentable(capabilities@.formats)
                &&& device.color_formats().contains(picked(capabilities@.formats).format)
                &&& device.depth_formats().contains(depth_format)
            }),
            built is Ok ==> ({
                let surface = built->Ok_0;
                &&& surface.state().wf()
                &&& surface.state() == SchedulerView::fresh(surface.state().pass, queues)
                &&& surface.state().pass.describes(picked(capabilities@.formats).format, depth_format)
                &&& surface.color_formats() == device.color_formats()
                &&& surface.depth_formats() == device.depth_formats()
            }),
            built is Err ==> built->Err_0 == (Fatal {
                stage: Stage::Build,
                cause: if offers_presentable(capabilities@.formats) {
                    Failure::UnsupportedFormat
                } else {
                    Failure::UnsupportedSurfaceFormat
                },
            }),
    {
        let pair = match select_surface_format(&capabilities.formats) {
            Some(pair) => pair,
            None => {
                return Err(Fatal { stage: Stage::Build, cause: Failure::UnsupportedSurfaceFormat });
            },
        };
        proof {
            let formats = capabilities@.formats;
            let found = choose|i: int| is_first_presentable(formats, i) && formats[i] == pair;
            let chosen = choose|i: int| is_first_presentable(formats, i);
            assert(is_first_presentable(formats, found));
            assert(is_first_presentable(formats, chosen));
            if found < chosen {
                assert(!formats[found].presentable());
            } else if chosen < found {
                assert(!formats[chosen].presentable());
            }
        }
        match RenderPassDescriptor::build(&device, pair.format, depth_format) {
            Ok(render_pass) => Ok(Surface { device, scheduler: FrameScheduler::new(render_pass, queues) }),
            Err(cause) => Err(Fatal { stage: Stage::Build, cause }),
        }
    }

    /// The device that the surface was built for.
    pub fn device(&self) -> (device: &Device)
        ensures
            device.color_formats() == self.color_formats(),
            device.depth_formats() == self.depth_formats(),
    {
        &self.device
    }

    /// The render pass that every frame is drawn with.
    pub fn render_pass(&self) -> (render_pass: &RenderPassDescriptor)
        ensures
            *render_pass == self.state().pass,
    {
        self.scheduler.render_pass()
    }

    /// The scheduler behind the surface.
    pub fn scheduler(&self) -> (scheduler: &FrameScheduler)
        ensures
            scheduler@ == self.state(),
    {
        &self.scheduler
    }

    /// Starts a frame for a surface that is `extent` large right now. The
    /// result is the first operation of the frame: an acquisition where the
    /// chain is compatible with `extent`, the first step of a rebuild where it
    /// is not, and the fatal error again where the engine has halted. While a
    /// frame is under way there is no result and nothing changes.
    pub fn render(&mut self, extent: Extent) -> (action: Option<Action>)
        ensures
            final(self).state() == old(self).state().step(EventView::Render { extent }).next,
            action == old(self).state().step(EventView::Render { extent }).action,
            final(self).color_formats() == old(self).color_formats(),
            final(self).depth_formats() == old(self).depth_formats(),
            old(self).state().wf(),
            final(self).state().wf(),
    {
        self.scheduler.step(Event::Render { extent })
    }

    /// Passes on what the platform reported, and says what to do next.
    pub fn resume(&mut self, event: Event) -> (action: Option<Action>)
        ensures
            final(self).state() == old(self).state().step(event@).next,
            action == old(self).state().step(event@).action,
            final(self).color_formats() == old(self).color_formats(),
            final(self).depth_formats() == old(self).depth_formats(),
            old(self).state().wf(),
            final(self).state().wf(),
    {
        self.scheduler.step(event)
    }

    /// Takes the surface down. The result is the future that has to be waited
    /// for before the chain or the device may be destroyed, if there is one.
    pub fn finish(self) -> (future: Option<FrameFuture>)
        ensures
            future == self.state().future,
    {
        self.scheduler.finish()
    }
}

} // verus!
