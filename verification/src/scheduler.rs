//! The frame scheduler: the state machine that takes one frame at a time from
//! a render request to its present.
//!
//! The scheduler performs no platform operation itself. Each step takes what
//! the platform last reported and answers with the operation to perform next.
//! Between frames the scheduler is `Idle`, while it has no chain yet, or
//! `Ready`. Within a frame it passes through the rebuild of the chain, where
//! one is due, then through `Acquiring`, `Recording`, `Submitting` and
//! `Presenting`, and comes back to `Ready`. A fatal error leaves it halted.

use vstd::prelude::*;
use crate::attachment::{AttachmentSet, ImageHandle};
use crate::chain::{
    fits, negotiated, negotiated_fits, CapabilitiesView, ChainHandle, ChainRequest, ChainView, CreatedChain, Framebuffer,
    PresentationChain, SurfaceCapabilities,
};
use crate::device::Queues;
use crate::error::{DrawError, Failure, Fatal, RenderError, Stage};
use crate::extent::Extent;
use crate::format::Format;
use crate::render_pass::RenderPassDescriptor;

verus! {

/// Stands for the point at which the work of a submitted frame, its present
/// included, is done with the resources it used. The scheduler holds the
/// future of the last frame and hands it over when the next frame is submitted.
#[derive(Clone, Copy, Debug, PartialEq, Eq, Structural)]
pub struct FrameFuture {
    pub id: u64,
}

/// A color with eight bits per channel.
#[derive(Clone, Copy, Debug, PartialEq, Eq, Structural)]
pub struct Color {
    pub red: u8,
    pub green: u8,
    pub blue: u8,
    pub alpha: u8,
}

/// Depth that a depth image is cleared to.
#[derive(Clone, Copy, Debug, PartialEq, Eq, Structural)]
pub enum ClearDepth {
    Near,
    Far,
}

/// What the attachments are cleared to when a frame's render pass begins.
#[derive(Clone, Copy, Debug, PartialEq, Eq, Structural)]
pub struct ClearValues {
    pub color: Color,
    pub depth: ClearDepth,
}

/// Every frame starts from an opaque black background, at the far depth.
pub open spec fn frame_clear() -> ClearValues {
    ClearValues { color: Color { red: 0, green: 0, blue: 0, alpha: 255 }, depth: ClearDepth::Far }
}

/// Where the scheduler stands.
#[derive(Clone, Copy, Debug, PartialEq, Eq, Structural)]
pub enum Phase {
    /// Between frames, with no chain.
    Idle,
    /// Between frames, with a chain.
    Ready,
    /// Rebuilding: waiting for the surface's extent and capabilities.
    Querying { retried: bool },
    /// Rebuilding: waiting for the depth image.
    Allocating { retried: bool, request: ChainRequest },
    /// Rebuilding: waiting for the platform's new chain.
    Creating { retried: bool, request: ChainRequest, attachments: AttachmentSet },
    /// Waiting for the index of the next free image. `retried` says that the
    /// chain was already rebuilt once because acquisition found it out of date.
    Acquiring { retried: bool },
    /// Waiting for the drawing callback to record its commands.
    Recording { index: u32 },
    /// Waiting for the submission of the frame's commands.
    Submitting { index: u32 },
    /// Waiting for the present of the image to be enqueued.
    Presenting { index: u32 },
}

/// What the embedding program reports to the scheduler.
pub enum Event {
    /// A frame is wanted; the surface is `extent` large right now.
    Render { extent: Extent },
    /// The surface's extent and capabilities, as asked for.
    Surface { extent: Extent, capabilities: SurfaceCapabilities },
    /// The depth image, as asked for.
    DepthAllocated { image: ImageHandle },
    /// The new chain, as asked for.
    ChainCreated { chain: CreatedChain },
    /// The index of the image that was acquired, and whether the platform
    /// called the chain suboptimal while handing it out.
    Acquired { index: u32, suboptimal: bool },
    /// The platform called the chain out of date and did not do what was asked.
    OutOfDate,
    /// The drawing callback recorded its commands.
    Drawn,
    /// The drawing callback failed.
    DrawFailed { error: DrawError },
    /// The frame's commands were submitted.
    Submitted,
    /// The present was enqueued and a fence requested; `future` stands for
    /// their completion.
    Presented { future: FrameFuture, suboptimal: bool },
    /// The platform could not do what was asked.
    Failed { cause: Failure },
}

/// An `Event` with its lists as sequences.
pub enum EventView {
    Render { extent: Extent },
    Surface { extent: Extent, capabilities: CapabilitiesView },
    DepthAllocated { image: ImageHandle },
    ChainCreated { handle: ChainHandle, images: Seq<ImageHandle> },
    Acquired { index: u32, suboptimal: bool },
    OutOfDate,
    Drawn,
    DrawFailed { error: DrawError },
    Submitted,
    Presented { future: FrameFuture, suboptimal: bool },
    Failed { cause: Failure },
}

impl View for Event {
    type V = EventView;

    open spec fn view(&self) -> EventView {
        match *self {
            Event::Render { extent } => EventView::Render { extent },
            Event::Surface { extent, capabilities } => EventView::Surface { extent, capabilities: capabilities@ },
            Event::DepthAllocated { image } => EventView::DepthAllocated { image },
            Event::ChainCreated { chain } => EventView::ChainCreated { handle: chain.handle, images: chain.images@ },
            Event::Acquired { index, suboptimal } => EventView::Acquired { index, suboptimal },
            Event::OutOfDate => EventView::OutOfDate,
            Event::Drawn => EventView::Drawn,
            Event::DrawFailed { error } => EventView::DrawFailed { error },
            Event::Submitted => EventView::Submitted,
            Event::Presented { future, suboptimal } => EventView::Presented { future, suboptimal },
            Event::Failed { cause } => EventView::Failed { cause },
        }
    }
}

/// What the scheduler asks the embedding program to do next.
#[derive(Clone, Copy, Debug, PartialEq, Eq)]
pub enum Action {
    /// Query the surface for its extent and capabilities.
    QuerySurface,
    /// Allocate a depth image of this extent and format.
    AllocateDepth { extent: Extent, format: Format },
    /// Create a chain and fetch its images.
    CreateChain { request: ChainRequest },
    /// Acquire the next free image of the chain, waiting for as long as it takes.
    Acquire { chain: ChainHandle },
    /// Begin the render pass on `framebuffer`, clearing to `clear`; call the
    /// drawing callback once; end the render pass.
    Record { index: u32, framebuffer: Framebuffer, clear: ClearValues },
    /// Submit the recorded commands to `queue`. They wait for the acquisition
    /// of image `index`, and come after the frame that `after` stands for.
    Submit { queue: usize, index: u32, after: Option<FrameFuture> },
    /// Enqueue the present of image `index` on `queue`, behind the submission,
    /// and request a fence.
    Present { queue: usize, chain: ChainHandle, index: u32 },
    /// The frame is on its way to the screen: the render call is over.
    Done,
    /// The render call is over and gave no frame.
    Abort { error: RenderError },
}

/// A `FrameScheduler`, seen as plain values.
pub struct SchedulerView {
    pub pass: RenderPassDescriptor,
    pub queues: Queues,
    pub chain: Option<ChainView>,
    pub future: Option<FrameFuture>,
    pub phase: Phase,
    pub fatal: Option<Fatal>,
}

/// Where a step leads: the scheduler afterwards, and what it asks for. An
/// event that the scheduler was not waiting for asks for nothing.
pub struct Transition {
    pub next: SchedulerView,
    pub action: Option<Action>,
}

impl SchedulerView {
    /// The scheduler before its first frame.
    pub open spec fn fresh(pass: RenderPassDescriptor, queues: Queues) -> SchedulerView {
        SchedulerView { pass, queues, chain: None, future: None, phase: Phase::Idle, fatal: None }
    }

    /// The platform's name of the chain in use, if there is one.
    pub open spec fn recycle(self) -> Option<ChainHandle> {
        match self.chain {
            Some(chain) => Some(chain.handle),
            None => None,
        }
    }

    /// The scheduler is between two frames.
    pub open spec fn resting(self) -> bool {
        self.phase is Idle || self.phase is Ready
    }

    /// What holds of every scheduler: its chain is well formed and bound to its
    /// render pass, and its phase fits what it holds.
    pub open spec fn wf(self) -> bool {
        &&& self.chain is Some ==> (self.chain->0).wf() && (self.chain->0).pass == self.pass
        &&& match self.phase {
            Phase::Idle => self.chain is None && (self.fatal is None ==> self.future is None),
            Phase::Ready => self.chain is Some && self.fatal is None,
            Phase::Querying { .. } => self.fatal is None,
            Phase::Allocating { request, .. } => {
                &&& self.fatal is None
                &&& fits(request.format, self.pass)
                &&& request.recycle == self.recycle()
            },
            Phase::Creating { request, attachments, .. } => {
                &&& self.fatal is None
                &&& fits(request.format, self.pass)
                &&& request.recycle == self.recycle()
                &&& attachments.extent == request.extent
                &&& attachments.format == self.pass.depth_slot().format
            },
            Phase::Acquiring { .. } => self.fatal is None && self.chain is Some,
            Phase::Recording { index } | Phase::Submitting { index } | Phase::Presenting { index } => {
                &&& self.fatal is None
                &&& self.chain is Some
                &&& index < (self.chain->0).images.len()
            },
        }
    }

    /// The step that leaves everything as it is and asks for nothing.
    pub open spec fn ignore(self) -> Transition {
        Transition { next: self, action: None }
    }

    /// The step that moves to `phase` and asks for `action`.
    pub open spec fn proceed(self, phase: Phase, action: Action) -> Transition {
        Transition { next: SchedulerView { phase, ..self }, action: Some(action) }
    }

    /// The step that ends the engine: the chain is given up, the error is kept
    /// and handed to the caller.
    pub open spec fn halt(self, stage: Stage, cause: Failure) -> Transition {
        let fatal = Fatal { stage, cause };
        Transition {
            next: SchedulerView { chain: None, phase: Phase::Idle, fatal: Some(fatal), ..self },
            action: Some(Action::Abort { error: RenderError::Fatal(fatal) }),
        }
    }

    /// The step that ends a frame: back to `Ready`.
    pub open spec fn settle(self, chain: ChainView, future: Option<FrameFuture>, action: Action) -> Transition {
        Transition {
            next: SchedulerView { chain: Some(chain), future, phase: Phase::Ready, ..self },
            action: Some(action),
        }
    }

    /// A frame is wanted. A halted scheduler repeats its error. Otherwise the
    /// frame goes on to acquisition where the chain is compatible with the
    /// surface's extent, and to a rebuild where it is not or there is none.
    pub open spec fn begin(self, extent: Extent) -> Transition {
        match self.fatal {
            Some(fatal) => Transition { next: self, action: Some(Action::Abort { error: RenderError::Fatal(fatal) }) },
            None => match self.chain {
                Some(chain) if chain.compatible(extent) => self.proceed(
                    Phase::Acquiring { retried: false },
                    Action::Acquire { chain: chain.handle },
                ),
                _ => self.proceed(Phase::Querying { retried: false }, Action::QuerySurface),
            },
        }
    }

    /// The surface answered: the request is worked out and the depth image
    /// asked for, or the engine halts for want of a pair that fits.
    pub open spec fn surveyed(self, retried: bool, extent: Extent, capabilities: CapabilitiesView) -> Transition {
        match negotiated(capabilities, extent, self.pass, self.recycle()) {
            Some(request) => self.proceed(
                Phase::Allocating { retried, request },
                Action::AllocateDepth { extent, format: self.pass.depth_slot().format },
            ),
            None => self.halt(Stage::Rebuild, Failure::UnsupportedSurfaceFormat),
        }
    }

    /// The depth image is there: the attachments are built and the chain asked for.
    pub open spec fn allocated(self, retried: bool, request: ChainRequest, image: ImageHandle) -> Transition {
        self.proceed(
            Phase::Creating {
                retried,
                request,
                attachments: AttachmentSet {
                    extent: request.extent,
                    format: self.pass.depth_slot().format,
                    depth: image,
                },
            },
            Action::CreateChain { request },
        )
    }

    /// The platform's chain is there: the new chain replaces the old one and
    /// the frame goes on to acquisition.
    pub open spec fn created(
        self,
        retried: bool,
        request: ChainRequest,
        attachments: AttachmentSet,
        handle: ChainHandle,
        images: Seq<ImageHandle>,
    ) -> Transition {
        match ChainView::rebuilt(request, self.pass, attachments, Some((handle, images))) {
            Ok(chain) => Transition {
                next: SchedulerView { chain: Some(chain), phase: Phase::Acquiring { retried }, ..self },
                action: Some(Action::Acquire { chain: handle }),
            },
            Err(cause) => self.halt(Stage::Rebuild, cause),
        }
    }

    /// An image was acquired. A suboptimal chain is marked and still used for
    /// this frame. An index that the chain does not have is not taken.
    pub open spec fn acquired(self, index: u32, suboptimal: bool) -> Transition {
        match self.chain {
            Some(chain) if index < chain.images.len() => {
                let chain = if suboptimal {
                    chain.stale()
                } else {
                    chain
                };
                Transition {
                    next: SchedulerView { chain: Some(chain), phase: Phase::Recording { index }, ..self },
                    action: Some(Action::Record { index, framebuffer: chain.frame(index as int), clear: frame_clear() }),
                }
            },
            _ => self.ignore(),
        }
    }

    /// Acquisition found the chain out of date: the chain is rebuilt and
    /// acquisition tried again, once. The second time the surface counts as lost.
    pub open spec fn outdated(self, retried: bool) -> Transition {
        if retried {
            self.halt(Stage::Acquire, Failure::SurfaceLost)
        } else {
            self.proceed(Phase::Querying { retried: true }, Action::QuerySurface)
        }
    }

    /// The commands are recorded: they are submitted to the graphics queue,
    /// behind the last frame, whose future is handed over.
    pub open spec fn drawn(self, index: u32) -> Transition {
        Transition {
            next: SchedulerView { future: None, phase: Phase::Submitting { index }, ..self },
            action: Some(Action::Submit { queue: self.queues.graphics, index, after: self.future }),
        }
    }

    /// The drawing callback failed: the frame is dropped. Nothing is submitted
    /// or presented, and chain and future stay as they are.
    pub open spec fn dropped(self, error: DrawError) -> Transition {
        self.proceed(Phase::Ready, Action::Abort { error: RenderError::Draw(error) })
    }

    /// The commands are submitted: the image is presented on the presentation queue.
    pub open spec fn submitted(self, index: u32) -> Transition {
        match self.chain {
            Some(chain) => self.proceed(
                Phase::Presenting { index },
                Action::Present { queue: self.queues.presentation, chain: chain.handle, index },
            ),
            None => self.ignore(),
        }
    }

    /// The present is enqueued: its future is kept, and a chain that the
    /// platform called suboptimal is marked for the next frame.
    pub open spec fn presented(self, future: FrameFuture, suboptimal: bool) -> Transition {
        match self.chain {
            Some(chain) => self.settle(
                if suboptimal {
                    chain.stale()
                } else {
                    chain
                },
                Some(future),
                Action::Done,
            ),
            None => self.ignore(),
        }
    }

    /// The present found the chain out of date: the frame is over, there is no
    /// future to wait for, and the chain is marked for the next frame.
    pub open spec fn lapsed(self) -> Transition {
        match self.chain {
            Some(chain) => self.settle(chain.stale(), None, Action::Done),
            None => self.ignore(),
        }
    }

    /// The step that the scheduler takes on `event`.
    pub open spec fn step(self, event: EventView) -> Transition {
        match self.phase {
            Phase::Idle | Phase::Ready => match event {
                EventView::Render { extent } => self.begin(extent),
                _ => self.ignore(),
            },
            Phase::Querying { retried } => match event {
                EventView::Surface { extent, capabilities } => self.surveyed(retried, extent, capabilities),
                EventView::Failed { cause } => self.halt(Stage::Rebuild, cause),
                _ => self.ignore(),
            },
            Phase::Allocating { retried, request } => match event {
                EventView::DepthAllocated { image } => self.allocated(retried, request, image),
                EventView::Failed { cause } => self.halt(Stage::Rebuild, cause),
                _ => self.ignore(),
            },
            Phase::Creating { retried, request, attachments } => match event {
                EventView::ChainCreated { handle, images } => self.created(
                    retried,
                    request,
                    attachments,
                    handle,
                    images,
                ),
                EventView::Failed { cause } => self.halt(Stage::Rebuild, cause),
                _ => self.ignore(),
            },
            Phase::Acquiring { retried } => match event {
                EventView::Acquired { index, suboptimal } => self.acquired(index, suboptimal),
                EventView::OutOfDate => self.outdated(retried),
                EventView::Failed { cause } => self.halt(Stage::Acquire, cause),
                _ => self.ignore(),
            },
            Phase::Recording { index } => match event {
                EventView::Drawn => self.drawn(index),
                EventView::DrawFailed { error } => self.dropped(error),
                _ => self.ignore(),
            },
            Phase::Submitting { index } => match event {
                EventView::Submitted => self.submitted(index),
                EventView::Failed { cause } => self.halt(Stage::Submit, cause),
                _ => self.ignore(),
            },
            Phase::Presenting { .. } => match event {
                EventView::Presented { future, suboptimal } => self.presented(future, suboptimal),
                EventView::OutOfDate => self.lapsed(),
                EventView::Failed { cause } => self.halt(Stage::Present, cause),
                _ => self.ignore(),
            },
        }
    }
}

/// The frame scheduler. It owns the chain, the future of the last frame and
/// the render pass, and nothing else changes them.
pub struct FrameScheduler {
    render_pass: RenderPassDescriptor,
    queues: Queues,
    chain: Option<PresentationChain>,
    future: Option<FrameFuture>,
    phase: Phase,
    fatal: Option<Fatal>,
}

impl View for FrameScheduler {
    type V = SchedulerView;

    closed spec fn view(&self) -> SchedulerView {
        SchedulerView {
            pass: self.render_pass,
            queues: self.queues,
            chain: match self.chain {
                Some(chain) => Some(chain@),
                None => None,
            },
            future: self.future,
            phase: self.phase,
            fatal: self.fatal,
        }
    }
}

/// What every frame's attachments are cleared to.
pub fn clear_values() -> (clear: ClearValues)
    ensures
        clear == frame_clear(),
{
    ClearValues { color: Color { red: 0, green: 0, blue: 0, alpha: 255 }, depth: ClearDepth::Far }
}

impl FrameScheduler {
    #[verifier::type_invariant]
    closed spec fn sound(self) -> bool {
        self@.wf()
    }

    /// A scheduler before its first frame: idle, with no chain and no future.
    pub fn new(render_pass: RenderPassDescriptor, queues: Queues) -> (scheduler: FrameScheduler)
        ensures
            scheduler@ == SchedulerView::fresh(render_pass, queues),
            scheduler@.wf(),
    {
        FrameScheduler { render_pass, queues, chain: None, future: None, phase: Phase::Idle, fatal: None }
    }

    /// Takes what the platform reported and says what to do next.
    ///
    /// The scheduler afterwards and the operation it asks for are exactly what
    /// `SchedulerView::step` gives. There is no operation when the scheduler
    /// was not waiting for `event`; it is then unchanged.
    pub fn step(&mut self, event: Event) -> (action: Option<Action>)
        ensures
            old(self)@.wf(),
            final(self)@ == old(self)@.step(event@).next,
            action == old(self)@.step(event@).action,
            final(self)@.wf(),
    {
        let mut held = FrameScheduler::new(self.render_pass, self.queues);
        core::mem::swap(self, &mut held);
        let (next, action) = held.advance(event);
        *self = next;
        action
    }

    /// `step`, for a caller that hands the scheduler over and takes the next
    /// one back.
    pub fn advance(self, event: Event) -> (out: (FrameScheduler, Option<Action>))
        ensures
            self@.wf(),
            out.0@ == self@.step(event@).next,
            out.1 == self@.step(event@).action,
            out.0@.wf(),
    {
        proof {
            use_type_invariant(&self);
        }
        let ghost before = self@;
        let FrameScheduler { render_pass, queues, chain, future, phase, fatal } = self;
        match phase {
            Phase::Idle | Phase::Ready => match event {
                Event::Render { extent } => {
                    if let Some(fatal) = fatal {
                        let action = Action::Abort { error: RenderError::Fatal(fatal) };
                        (FrameScheduler { render_pass, queues, chain, future, phase, fatal: Some(fatal) }, Some(action))
                    } else {
                        let ready: Option<ChainHandle> = match &chain {
                            Some(chain) => if chain.is_compatible(extent) {
                                Some(chain.handle())
                            } else {
                                None
                            },
                            None => None,
                        };
                        match ready {
                            Some(handle) => (
                                FrameScheduler {
                                    render_pass,
                                    queues,
                                    chain,
                                    future,
                                    phase: Phase::Acquiring { retried: false },
                                    fatal,
                                },
                                Some(Action::Acquire { chain: handle }),
                            ),
                            None => (
                                FrameScheduler {
                                    render_pass,
                                    queues,
                                    chain,
                                    future,
                                    phase: Phase::Querying { retried: false },
                                    fatal,
                                },
                                Some(Action::QuerySurface),
                            ),
                        }
                    }
                },
                _ => (FrameScheduler { render_pass, queues, chain, future, phase, fatal }, None),
            },
            Phase::Querying { retried } => match event {
                Event::Surface { extent, capabilities } => {
                    let negotiation = PresentationChain::negotiate(&capabilities, extent, &render_pass, chain.as_ref());
                    proof {
                        negotiated_fits(capabilities@, extent, render_pass, before.recycle());
                    }
                    match negotiation {
                        Ok(request) => {
                            let format = render_pass.depth().format;
                            (
                                FrameScheduler {
                                    render_pass,
                                    queues,
                                    chain,
                                    future,
                                    phase: Phase::Allocating { retried, request },
                                    fatal,
                                },
                                Some(Action::AllocateDepth { extent, format }),
                            )
                        },
                        Err(cause) => Self::halted(render_pass, queues, future, Stage::Rebuild, cause),
                    }
                },
                Event::Failed { cause } => Self::halted(render_pass, queues, future, Stage::Rebuild, cause),
                _ => (FrameScheduler { render_pass, queues, chain, future, phase, fatal }, None),
            },
            Phase::Allocating { retried, request } => match event {
                Event::DepthAllocated { image } => {
                    let attachments = AttachmentSet {
                        extent: request.extent,
                        format: render_pass.depth().format,
                        depth: image,
                    };
                    (
                        FrameScheduler {
                            render_pass,
                            queues,
                            chain,
                            future,
                            phase: Phase::Creating { retried, request, attachments },
                            fatal,
                        },
                        Some(Action::CreateChain { request }),
                    )
                },
                Event::Failed { cause } => Self::halted(render_pass, queues, future, Stage::Rebuild, cause),
                _ => (FrameScheduler { render_pass, queues, chain, future, phase, fatal }, None),
            },
            Phase::Creating { retried, request, attachments } => match event {
                Event::ChainCreated { chain: created } => {
                    let handle = created.handle;
                    match PresentationChain::rebuild(&request, &render_pass, attachments, Some(created), chain) {
                        Ok(rebuilt) => (
                            FrameScheduler {
                                render_pass,
                                queues,
                                chain: Some(rebuilt),
                                future,
                                phase: Phase::Acquiring { retried },
                                fatal,
                            },
                            Some(Action::Acquire { chain: handle }),
                        ),
                        Err(cause) => Self::halted(render_pass, queues, future, Stage::Rebuild, cause),
                    }
                },
                Event::Failed { cause } => Self::halted(render_pass, queues, future, Stage::Rebuild, cause),
                _ => (FrameScheduler { render_pass, queues, chain, future, phase, fatal }, None),
            },
            Phase::Acquiring { retried } => match event {
                Event::Acquired { index, suboptimal } => {
                    let mut chain = chain;
                    let target: Option<Framebuffer> = match &chain {
                        Some(held) => held.framebuffer(index),
                        None => None,
                    };
                    match target {
                        Some(framebuffer) => {
                            if suboptimal {
                                chain = Self::marked(chain);
                            }
                            (
                                FrameScheduler {
                                    render_pass,
                                    queues,
                                    chain,
                                    future,
                                    phase: Phase::Recording { index },
                                    fatal,
                                },
                                Some(Action::Record { index, framebuffer, clear: clear_values() }),
                            )
                        },
                        None => (FrameScheduler { render_pass, queues, chain, future, phase, fatal }, None),
                    }
                },
                Event::OutOfDate => {
                    if retried {
                        Self::halted(render_pass, queues, future, Stage::Acquire, Failure::SurfaceLost)
                    } else {
                        (
                            FrameScheduler {
                                render_pass,
                                queues,
                                chain,
                                future,
                                phase: Phase::Querying { retried: true },
                                fatal,
                            },
                            Some(Action::QuerySurface),
                        )
                    }
                },
                Event::Failed { cause } => Self::halted(render_pass, queues, future, Stage::Acquire, cause),
                _ => (FrameScheduler { render_pass, queues, chain, future, phase, fatal }, None),
            },
            Phase::Recording { index } => match event {
                Event::Drawn => (
                    FrameScheduler {
                        render_pass,
                        queues,
                        chain,
                        future: None,
                        phase: Phase::Submitting { index },
                        fatal,
                    },
                    Some(Action::Submit { queue: queues.graphics, index, after: future }),
                ),
                Event::DrawFailed { error } => (
                    FrameScheduler { render_pass, queues, chain, future, phase: Phase::Ready, fatal },
                    Some(Action::Abort { error: RenderError::Draw(error) }),
                ),
                _ => (FrameScheduler { render_pass, queues, chain, future, phase, fatal }, None),
            },
            Phase::Submitting { index } => match event {
                Event::Submitted => {
                    let handle: Option<ChainHandle> = match &chain {
                        Some(held) => Some(held.handle()),
                        None => None,
                    };
                    match handle {
                        Some(handle) => (
                            FrameScheduler {
                                render_pass,
                                queues,
                                chain,
                                future,
                                phase: Phase::Presenting { index },
                                fatal,
                            },
                            Some(Action::Present { queue: queues.presentation, chain: handle, index }),
                        ),
                        None => (FrameScheduler { render_pass, queues, chain, future, phase, fatal }, None),
                    }
                },
                Event::Failed { cause } => Self::halted(render_pass, queues, future, Stage::Submit, cause),
                _ => (FrameScheduler { render_pass, queues, chain, future, phase, fatal }, None),
            },
            Phase::Presenting { index } => match event {
                Event::Presented { future: latest, suboptimal } => {
                    let chain = if suboptimal {
                        Self::marked(chain)
                    } else {
                        chain
                    };
                    (
                        FrameScheduler {
                            render_pass,
                            queues,
                            chain,
                            future: Some(latest),
                            phase: Phase::Ready,
                            fatal,
                        },
                        Some(Action::Done),
                    )
                },
                Event::OutOfDate => {
                    let chain = Self::marked(chain);
                    (
                        FrameScheduler { render_pass, queues, chain, future: None, phase: Phase::Ready, fatal },
                        Some(Action::Done),
                    )
                },
                Event::Failed { cause } => Self::halted(render_pass, queues, future, Stage::Present, cause),
                _ => (FrameScheduler { render_pass, queues, chain, future, phase, fatal }, None),
            },
        }
    }

    /// The halted scheduler and the error it hands to the caller.
    fn halted(
        render_pass: RenderPassDescriptor,
        queues: Queues,
        future: Option<FrameFuture>,
        stage: Stage,
        cause: Failure,
    ) -> (out: (FrameScheduler, Option<Action>))
        ensures
            out.0@ == (SchedulerView {
                pass: render_pass,
                queues,
                chain: None,
                future,
                phase: Phase::Idle,
                fatal: Some(Fatal { stage, cause }),
            }),
            out.1 == Some(Action::Abort { error: RenderError::Fatal(Fatal { stage, cause }) }),
    {
        let fatal = Fatal { stage, cause };
        (
            FrameScheduler { render_pass, queues, chain: None, future, phase: Phase::Idle, fatal: Some(fatal) },
            Some(Action::Abort { error: RenderError::Fatal(fatal) }),
        )
    }

    /// The chain, if any, with its `optimal` flag cleared.
    fn marked(chain: Option<PresentationChain>) -> (marked: Option<PresentationChain>)
        ensures
            marked is Some == chain is Some,
            chain is Some ==> (marked->0)@ == (chain->0)@.stale(),
    {
        match chain {
            Some(mut held) => {
                held.invalidate();
                Some(held)
            },
            None => None,
        }
    }

    /// Where the scheduler stands.
    pub fn phase(&self) -> (phase: Phase)
        ensures
            phase == self@.phase,
            self@.wf(),
    {
        proof {
            use_type_invariant(self);
        }
        self.phase
    }

    /// The chain in use, if there is one.
    pub fn chain(&self) -> (chain: Option<&PresentationChain>)
        ensures
            chain is Some == self@.chain is Some,
            chain is Some ==> (chain->0)@ == self@.chain->0,
            self@.wf(),
    {
        proof {
            use_type_invariant(self);
        }
        self.chain.as_ref()
    }

    /// The future of the last frame that was presented, if it has not been
    /// handed over to a later submission.
    pub fn future(&self) -> (future: Option<FrameFuture>)
        ensures
            future == self@.future,
    {
        self.future
    }

    /// The error that halted the scheduler, if it is halted.
    pub fn fatal(&self) -> (fatal: Option<Fatal>)
        ensures
            fatal == self@.fatal,
    {
        self.fatal
    }

    /// The render pass that every frame is drawn with.
    pub fn render_pass(&self) -> (render_pass: &RenderPassDescriptor)
        ensures
            *render_pass == self@.pass,
    {
        &self.render_pass
    }

    /// The queue families in use.
    pub fn queues(&self) -> (queues: Queues)
        ensures
            queues == self@.queues,
    {
        self.queues
    }

    /// Ends the scheduler's life. The result is the future that has to be
    /// waited for before the chain or the device may be destroyed, if there is
    /// one.
    pub fn finish(self) -> (future: Option<FrameFuture>)
        ensures
            future == self@.future,
    {
        self.future
    }
}

} // verus!
