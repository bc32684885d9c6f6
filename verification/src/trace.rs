//! What holds of the scheduler over whole runs: sequences of steps, and
//! sequences of render calls against a platform that does what it is asked.

use vstd::prelude::*;
use crate::attachment::{AttachmentSet, ImageHandle};
use crate::chain::{
    assembled_is_aligned, negotiated, negotiated_fits, offers_fit, CapabilitiesView, ChainHandle, ChainRequest,
    ChainView,
};
use crate::error::{DrawError, RenderError};
use crate::extent::Extent;
use crate::render_pass::RenderPassDescriptor;
use crate::scheduler::{frame_clear, Action, EventView, FrameFuture, Phase, SchedulerView};

verus! {

/// The scheduler after it has taken `events` one by one.
pub open spec fn run(start: SchedulerView, events: Seq<EventView>) -> SchedulerView
    decreases events.len(),
{
    if events.len() == 0 {
        start
    } else {
        run(start, events.drop_last()).step(events.last()).next
    }
}

/// Every step leads from a well formed scheduler to a well formed one. In
/// particular the chain in use always has one framebuffer for each image, at
/// the image's index, built from it and of the chain's extent. The render
/// pass and the queues stay what they were: they outlive every rebuild.
pub proof fn step_keeps_wf(scheduler: SchedulerView, event: EventView)
    requires
        scheduler.wf(),
    ensures
        scheduler.step(event).next.wf(),
        scheduler.step(event).next.pass == scheduler.pass,
        scheduler.step(event).next.queues == scheduler.queues,
{
    match scheduler.phase {
        Phase::Querying { retried } => match event {
            EventView::Surface { extent, capabilities } => {
                negotiated_fits(capabilities, extent, scheduler.pass, scheduler.recycle());
            },
            _ => {},
        },
        Phase::Creating { retried, request, attachments } => match event {
            EventView::ChainCreated { handle, images } => {
                assembled_is_aligned(scheduler.pass, attachments, handle, images);
            },
            _ => {},
        },
        _ => {},
    }
}

/// A run that starts from a well formed scheduler ends in one.
pub proof fn run_keeps_wf(start: SchedulerView, events: Seq<EventView>)
    requires
        start.wf(),
    ensures
        run(start, events).wf(),
        run(start, events).pass == start.pass,
        run(start, events).queues == start.queues,
    decreases events.len(),
{
    if events.len() > 0 {
        run_keeps_wf(start, events.drop_last());
        step_keeps_wf(run(start, events.drop_last()), events.last());
    }
}

/// Whether an event says something of the chain: that a new one was created,
/// that the platform calls the one in use suboptimal or out of date, or that
/// an operation failed.
pub open spec fn reports_on_chain(event: EventView) -> bool {
    match event {
        EventView::Surface { .. } | EventView::ChainCreated { .. } | EventView::OutOfDate | EventView::Failed {
            ..
        } => true,
        EventView::Acquired { suboptimal, .. } => suboptimal,
        EventView::Presented { suboptimal, .. } => suboptimal,
        _ => false,
    }
}

/// A step on an event that says nothing of the chain leaves the chain as it
/// is, and with it the answer of the compatibility check for every extent.
pub proof fn chain_changes_only_on_report(scheduler: SchedulerView, event: EventView, extent: Extent)
    requires
        scheduler.wf(),
        !reports_on_chain(event),
    ensures
        scheduler.step(event).next.chain == scheduler.chain,
        scheduler.chain is Some ==> (scheduler.step(event).next.chain->0).compatible(extent) == (
        scheduler.chain->0).compatible(extent),
{
}

/// A halted scheduler stays as it is whatever it is told, and asks for no
/// operation of the platform: a render request is answered with the error that
/// halted it, anything else with nothing.
pub proof fn halted_makes_no_progress(scheduler: SchedulerView, event: EventView)
    requires
        scheduler.wf(),
        scheduler.fatal is Some,
    ensures
        scheduler.step(event).next == scheduler,
        scheduler.step(event).action == (if event is Render {
            Some(Action::Abort { error: RenderError::Fatal(scheduler.fatal->0) })
        } else {
            None
        }),
{
}

/// How often, along the run, the platform handed out image `index`.
pub open spec fn acquisitions(start: SchedulerView, events: Seq<EventView>, index: u32) -> nat
    decreases events.len(),
{
    if events.len() == 0 {
        0
    } else {
        let before = run(start, events.drop_last());
        let earlier = acquisitions(start, events.drop_last(), index);
        match events.last() {
            EventView::Acquired { index: acquired, .. } if acquired == index && before.step(
                events.last(),
            ).action is Some => earlier + 1,
            _ => earlier,
        }
    }
}

/// How often, along the run, the scheduler asked for image `index` to be presented.
pub open spec fn presents(start: SchedulerView, events: Seq<EventView>, index: u32) -> nat
    decreases events.len(),
{
    if events.len() == 0 {
        0
    } else {
        let before = run(start, events.drop_last());
        let earlier = presents(start, events.drop_last(), index);
        match before.step(events.last()).action {
            Some(Action::Present { index: presented, .. }) if presented == index => earlier + 1,
            _ => earlier,
        }
    }
}

/// Whether the scheduler holds image `index` acquired and has not yet asked
/// for its present.
pub open spec fn in_hand(scheduler: SchedulerView, index: u32) -> nat {
    match scheduler.phase {
        Phase::Recording { index: held } | Phase::Submitting { index: held } => if held == index {
            1
        } else {
            0
        },
        _ => 0,
    }
}

/// No image is acquired again before its present was asked for.
///
/// Take any run from between two frames in which no draw fails and the
/// platform reports no failure. At every point of it, image `index` was handed
/// out as often as its present was asked for, and once more while the frame
/// that draws into it is being recorded or submitted. So whenever the
/// scheduler waits for an acquisition, or rests between frames, each image
/// handed out so far has had its present asked for.
pub proof fn no_premature_reuse(start: SchedulerView, events: Seq<EventView>, index: u32)
    requires
        start.wf(),
        start.resting(),
        forall|k: int| 0 <= k < events.len() ==> !(events[k] is DrawFailed) && !(events[k] is Failed),
    ensures
        acquisitions(start, events, index) == presents(start, events, index) + in_hand(run(start, events), index),
        acquisitions(start, events, index) <= presents(start, events, index) + 1,
        run(start, events).phase is Acquiring || run(start, events).resting() ==> acquisitions(start, events, index)
            == presents(start, events, index),
    decreases events.len(),
{
    if events.len() > 0 {
        let earlier = events.drop_last();
        assert forall|k: int| 0 <= k < earlier.len() implies !(earlier[k] is DrawFailed) && !(earlier[k] is Failed) by {
            assert(earlier[k] == events[k]);
        }
        no_premature_reuse(start, earlier, index);
        run_keeps_wf(start, earlier);
        assert(!(events.last() is DrawFailed) && !(events.last() is Failed)) by {
            assert(events.last() == events[events.len() - 1]);
        }
    }
}

/// A failed draw touches nothing but the frame it belongs to: the scheduler
/// goes back to `Ready` with the chain and the future it had, hands the
/// callback's error to the caller, and asks for no submission and no present.
pub proof fn draw_failure_is_frame_local(scheduler: SchedulerView, index: u32, error: DrawError)
    requires
        scheduler.wf(),
        scheduler.phase == (Phase::Recording { index }),
    ensures
        scheduler.step(EventView::DrawFailed { error }).action == Some(
            Action::Abort { error: RenderError::Draw(error) },
        ),
        scheduler.step(EventView::DrawFailed { error }).next == (SchedulerView {
            phase: Phase::Ready,
            ..scheduler
        }),
{
}

/// A chain that acquisition found suboptimal still takes the frame in flight,
/// and is rebuilt at the next render call whatever the surface's extent is.
pub proof fn suboptimal_rebuilds_next(scheduler: SchedulerView, index: u32, extent: Extent)
    requires
        scheduler.wf(),
        scheduler.phase is Acquiring,
        index < (scheduler.chain->0).images.len(),
    ensures
        ({
            let marked = scheduler.step(EventView::Acquired { index, suboptimal: true });
            &&& marked.action == Some(
                Action::Record {
                    index,
                    framebuffer: (scheduler.chain->0).frame(index as int),
                    clear: frame_clear(),
                },
            )
            &&& marked.next.chain == Some((scheduler.chain->0).stale())
            &&& forall|later: SchedulerView|
                later.resting() && later.fatal is None && later.chain == marked.next.chain ==> (#[trigger] later.step(
                    EventView::Render { extent },
                )).action == Some(Action::QuerySurface)
        }),
{
}

/// What a platform that does all it is asked reports in the course of one
/// render call.
pub struct Frame {
    /// Extent of the surface throughout the call.
    pub extent: Extent,
    /// Capabilities of the surface.
    pub capabilities: CapabilitiesView,
    /// The depth image that is allocated if one is asked for.
    pub depth: ImageHandle,
    /// The chain that is created if one is asked for, and its images.
    pub chain: ChainHandle,
    pub images: Seq<ImageHandle>,
    /// Whether the first acquisition of the call finds the chain out of date.
    pub out_of_date: bool,
    /// The image that acquisition hands out, and whether it calls the chain
    /// suboptimal in doing so.
    pub index: u32,
    pub suboptimal: bool,
    /// The error of the drawing callback, if it fails.
    pub draw: Option<DrawError>,
    /// The future of the present.
    pub future: FrameFuture,
}

impl Frame {
    /// What the platform reports when it has done `action`, which leaves the
    /// scheduler waiting in `phase`. The two operations that end a render call
    /// are not answered.
    pub open spec fn answer(self, action: Action, phase: Phase) -> Option<EventView> {
        match action {
            Action::QuerySurface => Some(
                EventView::Surface { extent: self.extent, capabilities: self.capabilities },
            ),
            Action::AllocateDepth { .. } => Some(EventView::DepthAllocated { image: self.depth }),
            Action::CreateChain { .. } => Some(EventView::ChainCreated { handle: self.chain, images: self.images }),
            Action::Acquire { .. } => Some(
                if self.out_of_date && phase == (Phase::Acquiring { retried: false }) {
                    EventView::OutOfDate
                } else {
                    EventView::Acquired { index: self.index, suboptimal: self.suboptimal }
                },
            ),
            Action::Record { .. } => Some(
                match self.draw {
                    Some(error) => EventView::DrawFailed { error },
                    None => EventView::Drawn,
                },
            ),
            Action::Submit { .. } => Some(EventView::Submitted),
            Action::Present { .. } => Some(EventView::Presented { future: self.future, suboptimal: false }),
            Action::Done | Action::Abort { .. } => None,
        }
    }
}

/// Where a render call, or several, led: the scheduler afterwards, and the
/// operations it asked for, in order.
pub struct Outcome {
    pub state: SchedulerView,
    pub asked: Seq<Action>,
}

/// The scheduler is told `event`, the platform does what it asks and reports
/// back, and so on until the scheduler asks for nothing that the platform
/// answers, for `rounds` more reports at most. `asked` holds what was asked
/// for before.
pub open spec fn drive(
    scheduler: SchedulerView,
    event: EventView,
    frame: Frame,
    asked: Seq<Action>,
    rounds: nat,
) -> Outcome
    decreases rounds,
{
    let taken = scheduler.step(event);
    match taken.action {
        None => Outcome { state: taken.next, asked },
        Some(action) => match frame.answer(action, taken.next.phase) {
            Some(report) if rounds > 0 => drive(taken.next, report, frame, asked.push(action), (rounds - 1) as nat),
            _ => Outcome { state: taken.next, asked: asked.push(action) },
        },
    }
}

/// No render call takes more reports than this: three for a rebuild, twice,
/// two acquisitions, and one each for draw, submission and present.
pub open spec fn longest_call() -> nat {
    11
}

/// One render call on a surface of `frame.extent`, against the platform that
/// `frame` describes.
pub open spec fn render(scheduler: SchedulerView, frame: Frame) -> Outcome {
    drive(scheduler, EventView::Render { extent: frame.extent }, frame, Seq::empty(), longest_call())
}

/// One render call for each of `frames`, in order.
pub open spec fn render_all(start: SchedulerView, frames: Seq<Frame>) -> Outcome
    decreases frames.len(),
{
    if frames.len() == 0 {
        Outcome { state: start, asked: Seq::empty() }
    } else {
        let earlier = render_all(start, frames.drop_last());
        let last = render(earlier.state, frames.last());
        Outcome { state: last.state, asked: earlier.asked + last.asked }
    }
}

/// How many of `asked` create a chain: the number of rebuilds.
pub open spec fn rebuilds(asked: Seq<Action>) -> nat
    decreases asked.len(),
{
    if asked.len() == 0 {
        0
    } else if asked.last() is CreateChain {
        rebuilds(asked.drop_last()) + 1
    } else {
        rebuilds(asked.drop_last())
    }
}

/// The attachments that are built in a render call that rebuilds the chain.
pub open spec fn frame_attachments(scheduler: SchedulerView, frame: Frame) -> AttachmentSet {
    AttachmentSet { extent: frame.extent, format: scheduler.pass.depth_slot().format, depth: frame.depth }
}

/// The chain that a render call leaves in place when it rebuilds.
pub open spec fn frame_chain(scheduler: SchedulerView, frame: Frame) -> ChainView {
    let chain = ChainView::assembled(scheduler.pass, frame_attachments(scheduler, frame), frame.chain, frame.images);
    if frame.suboptimal {
        chain.stale()
    } else {
        chain
    }
}

/// The operations of a render call that finds its chain compatible and whose
/// draw succeeds: one acquisition, one recording, one submission that comes
/// after the last frame, one present.
pub open spec fn plain_call(scheduler: SchedulerView, frame: Frame) -> Seq<Action> {
    let chain = scheduler.chain->0;
    seq![
        Action::Acquire { chain: chain.handle },
        Action::Record { index: frame.index, framebuffer: chain.frame(frame.index as int), clear: frame_clear() },
        Action::Submit { queue: scheduler.queues.graphics, index: frame.index, after: scheduler.future },
        Action::Present { queue: scheduler.queues.presentation, chain: chain.handle, index: frame.index },
        Action::Done,
    ]
}

/// A render call whose chain is compatible with the surface and whose draw
/// succeeds asks for one acquisition, one recording, one submission joined
/// with the last frame's future, and one present, in this order; then the
/// new future is in place and the chain is the same, marked if acquisition
/// called it suboptimal.
pub proof fn compatible_call(scheduler: SchedulerView, frame: Frame)
    requires
        scheduler.wf(),
        scheduler.phase is Ready,
        (scheduler.chain->0).compatible(frame.extent),
        frame.index < (scheduler.chain->0).images.len(),
        !frame.out_of_date,
        frame.draw is None,
    ensures
        render(scheduler, frame).asked == plain_call(scheduler, frame),
        render(scheduler, frame).state == (SchedulerView {
            chain: Some(
                if frame.suboptimal {
                    (scheduler.chain->0).stale()
                } else {
                    scheduler.chain->0
                },
            ),
            future: Some(frame.future),
            ..scheduler
        }),
{
    reveal_with_fuel(drive, 6);
    assert(render(scheduler, frame).asked =~= plain_call(scheduler, frame));
}

/// The request that a render call makes when it rebuilds the chain.
pub open spec fn frame_request(scheduler: SchedulerView, frame: Frame) -> ChainRequest {
    negotiated(frame.capabilities, frame.extent, scheduler.pass, scheduler.recycle())->0
}

/// The operations by which a render call rebuilds the chain: the surface is
/// queried, the depth image allocated, the chain created.
pub open spec fn rebuild_ops(scheduler: SchedulerView, frame: Frame) -> Seq<Action> {
    seq![
        Action::QuerySurface,
        Action::AllocateDepth { extent: frame.extent, format: scheduler.pass.depth_slot().format },
        Action::CreateChain { request: frame_request(scheduler, frame) },
    ]
}

/// The operations by which a render call draws into the chain it has just
/// rebuilt, down to the recording.
pub open spec fn acquire_ops(scheduler: SchedulerView, frame: Frame) -> Seq<Action> {
    seq![
        Action::Acquire { chain: frame.chain },
        Action::Record {
            index: frame.index,
            framebuffer: frame_chain(scheduler, frame).frame(frame.index as int),
            clear: frame_clear(),
        },
    ]
}

/// The operations that take a recorded frame to the screen.
pub open spec fn present_ops(scheduler: SchedulerView, chain: ChainHandle, frame: Frame) -> Seq<Action> {
    seq![
        Action::Submit { queue: scheduler.queues.graphics, index: frame.index, after: scheduler.future },
        Action::Present { queue: scheduler.queues.presentation, chain, index: frame.index },
        Action::Done,
    ]
}

/// A render call that finds no chain, or one that is not compatible with the
/// surface, rebuilds before it acquires: it queries the surface, allocates
/// the depth image, creates the chain from the old one, and only then
/// acquires, records, submits and presents. The chain left in place has the
/// surface's extent and is made of what the platform created.
pub proof fn rebuilding_call(scheduler: SchedulerView, frame: Frame)
    requires
        scheduler.wf(),
        scheduler.resting(),
        scheduler.fatal is None,
        !(scheduler.chain is Some && (scheduler.chain->0).compatible(frame.extent)),
        offers_fit(frame.capabilities.formats, scheduler.pass),
        frame.index < frame.images.len(),
        !frame.out_of_date,
        frame.draw is None,
    ensures
        render(scheduler, frame).asked == rebuild_ops(scheduler, frame) + acquire_ops(scheduler, frame)
            + present_ops(scheduler, frame.chain, frame),
        frame_request(scheduler, frame).extent == frame.extent,
        frame_request(scheduler, frame).recycle == scheduler.recycle(),
        render(scheduler, frame).state == (SchedulerView {
            chain: Some(frame_chain(scheduler, frame)),
            future: Some(frame.future),
            phase: Phase::Ready,
            ..scheduler
        }),
        frame_chain(scheduler, frame).extent == frame.extent,
{
    negotiated_fits(frame.capabilities, frame.extent, scheduler.pass, scheduler.recycle());
    assembled_is_aligned(scheduler.pass, frame_attachments(scheduler, frame), frame.chain, frame.images);
    reveal_with_fuel(drive, 9);
    assert(render(scheduler, frame).asked =~= rebuild_ops(scheduler, frame) + acquire_ops(scheduler, frame)
        + present_ops(scheduler, frame.chain, frame));
}

/// An acquisition that finds the chain out of date is not the caller's
/// concern: the chain is rebuilt from the old one, acquisition is tried again,
/// and the frame is drawn, submitted and presented on the new chain.
pub proof fn outdated_call(scheduler: SchedulerView, frame: Frame)
    requires
        scheduler.wf(),
        scheduler.phase is Ready,
        (scheduler.chain->0).compatible(frame.extent),
        offers_fit(frame.capabilities.formats, scheduler.pass),
        frame.index < frame.images.len(),
        frame.out_of_date,
        frame.draw is None,
    ensures
        render(scheduler, frame).asked == seq![Action::Acquire { chain: (scheduler.chain->0).handle }] + rebuild_ops(
            scheduler,
            frame,
        ) + acquire_ops(scheduler, frame) + present_ops(scheduler, frame.chain, frame),
        frame_request(scheduler, frame).recycle == Some((scheduler.chain->0).handle),
        render(scheduler, frame).state == (SchedulerView {
            chain: Some(frame_chain(scheduler, frame)),
            future: Some(frame.future),
            ..scheduler
        }),
{
    negotiated_fits(frame.capabilities, frame.extent, scheduler.pass, scheduler.recycle());
    assembled_is_aligned(scheduler.pass, frame_attachments(scheduler, frame), frame.chain, frame.images);
    reveal_with_fuel(drive, 10);
    assert(render(scheduler, frame).asked =~= seq![Action::Acquire { chain: (scheduler.chain->0).handle }]
        + rebuild_ops(scheduler, frame) + acquire_ops(scheduler, frame) + present_ops(
        scheduler,
        frame.chain,
        frame,
    ));
}

/// Whether the render call has to rebuild the chain: there is none, or it is
/// not compatible with the surface, or acquisition finds it out of date.
pub open spec fn rebuild_due(scheduler: SchedulerView, frame: Frame) -> bool {
    scheduler.chain is None || !(scheduler.chain->0).compatible(frame.extent) || frame.out_of_date
}

/// How an unfinished render call goes on from the report of an acquired
/// image: the frame is recorded and, unless the draw fails, submitted and
/// presented.
proof fn ends_after_acquisition(scheduler: SchedulerView, frame: Frame, asked: Seq<Action>, rounds: nat)
    requires
        scheduler.wf(),
        scheduler.phase is Acquiring,
        frame.index < (scheduler.chain->0).images.len(),
        rounds >= 3,
    ensures
        ({
            let report = EventView::Acquired { index: frame.index, suboptimal: frame.suboptimal };
            let out = drive(scheduler, report, frame, asked, rounds);
            &&& out.state.wf()
            &&& out.state.phase is Ready
            &&& asked.len() + 2 <= out.asked.len() <= asked.len() + 4
            &&& out.asked.last() is Done || out.asked.last() is Abort
            &&& out.asked.last() is Done <==> frame.draw is None
        }),
{
    reveal_with_fuel(drive, 5);
}

/// How an unfinished render call goes on from the report of the surface: it
/// halts where no pair fits, and else creates the chain and acquires.
proof fn ends_after_survey(scheduler: SchedulerView, frame: Frame, asked: Seq<Action>, rounds: nat)
    requires
        scheduler.wf(),
        scheduler.phase is Querying,
        frame.index < frame.images.len(),
        rounds >= 3,
    ensures
        ({
            let report = EventView::Surface { extent: frame.extent, capabilities: frame.capabilities };
            let out = drive(scheduler, report, frame, asked, rounds);
            let retried = scheduler.phase->Querying_retried;
            let rebuilt = SchedulerView {
                chain: Some(
                    ChainView::assembled(
                        scheduler.pass,
                        frame_attachments(scheduler, frame),
                        frame.chain,
                        frame.images,
                    ),
                ),
                phase: Phase::Acquiring { retried },
                ..scheduler
            };
            &&& !offers_fit(frame.capabilities.formats, scheduler.pass) ==> {
                &&& out.state.wf()
                &&& out.state.resting()
                &&& out.asked.len() == asked.len() + 1
                &&& out.asked.last() is Abort
            }
            &&& offers_fit(frame.capabilities.formats, scheduler.pass) ==> {
                &&& rebuilt.wf()
                &&& exists|before: Seq<Action>|
                    before.len() == asked.len() + 3 && out == #[trigger] drive(
                        rebuilt,
                        frame.answer(Action::Acquire { chain: frame.chain }, rebuilt.phase)->0,
                        frame,
                        before,
                        (rounds - 3) as nat,
                    )
            }
        }),
{
    negotiated_fits(frame.capabilities, frame.extent, scheduler.pass, scheduler.recycle());
    assembled_is_aligned(scheduler.pass, frame_attachments(scheduler, frame), frame.chain, frame.images);
    reveal_with_fuel(drive, 4);
    if offers_fit(frame.capabilities.formats, scheduler.pass) {
        let request = negotiated(frame.capabilities, frame.extent, scheduler.pass, scheduler.recycle())->0;
        let before = asked.push(
            Action::AllocateDepth { extent: frame.extent, format: scheduler.pass.depth_slot().format },
        ).push(Action::CreateChain { request }).push(Action::Acquire { chain: frame.chain });
        let retried = scheduler.phase->Querying_retried;
        let rebuilt = SchedulerView {
            chain: Some(
                ChainView::assembled(scheduler.pass, frame_attachments(scheduler, frame), frame.chain, frame.images),
            ),
            phase: Phase::Acquiring { retried },
            ..scheduler
        };
        let report = EventView::Surface { extent: frame.extent, capabilities: frame.capabilities };
        assert(drive(scheduler, report, frame, asked, rounds) == drive(
            rebuilt,
            frame.answer(Action::Acquire { chain: frame.chain }, rebuilt.phase)->0,
            frame,
            before,
            (rounds - 3) as nat,
        ));
    }
}

/// How an unfinished render call goes on from a rebuild that is not followed
/// by a second one.
proof fn ends_after_last_survey(scheduler: SchedulerView, frame: Frame, asked: Seq<Action>, rounds: nat)
    requires
        scheduler.wf(),
        scheduler.phase is Querying,
        scheduler.phase->Querying_retried || !frame.out_of_date,
        frame.index < frame.images.len(),
        rounds >= 6,
    ensures
        ({
            let report = EventView::Surface { extent: frame.extent, capabilities: frame.capabilities };
            let out = drive(scheduler, report, frame, asked, rounds);
            &&& out.state.wf()
            &&& out.state.resting()
            &&& asked.len() + 1 <= out.asked.len() <= asked.len() + 7
            &&& out.asked.last() is Done || out.asked.last() is Abort
            &&& out.asked.last() is Done <==> frame.draw is None && offers_fit(
                frame.capabilities.formats,
                scheduler.pass,
            )
        }),
{
    ends_after_survey(scheduler, frame, asked, rounds);
    if offers_fit(frame.capabilities.formats, scheduler.pass) {
        let retried = scheduler.phase->Querying_retried;
        let rebuilt = SchedulerView {
            chain: Some(
                ChainView::assembled(scheduler.pass, frame_attachments(scheduler, frame), frame.chain, frame.images),
            ),
            phase: Phase::Acquiring { retried },
            ..scheduler
        };
        let report = frame.answer(Action::Acquire { chain: frame.chain }, rebuilt.phase)->0;
        let before = choose|before: Seq<Action>|
            before.len() == asked.len() + 3 && drive(
                scheduler,
                EventView::Surface { extent: frame.extent, capabilities: frame.capabilities },
                frame,
                asked,
                rounds,
            ) == #[trigger] drive(rebuilt, report, frame, before, (rounds - 3) as nat);
        ends_after_acquisition(rebuilt, frame, before, (rounds - 3) as nat);
    }
}

/// How an unfinished render call goes on from an acquisition that finds the
/// chain out of date for the first time.
proof fn ends_after_out_of_date(scheduler: SchedulerView, frame: Frame, asked: Seq<Action>, rounds: nat)
    requires
        scheduler.wf(),
        scheduler.phase == (Phase::Acquiring { retried: false }),
        frame.index < frame.images.len(),
        rounds >= 7,
    ensures
        ({
            let out = drive(scheduler, EventView::OutOfDate, frame, asked, rounds);
            &&& out.state.wf()
            &&& out.state.resting()
            &&& asked.len() + 2 <= out.asked.len() <= asked.len() + 8
            &&& out.asked.last() is Done || out.asked.last() is Abort
            &&& out.asked.last() is Done <==> frame.draw is None && offers_fit(
                frame.capabilities.formats,
                scheduler.pass,
            )
        }),
{
    reveal_with_fuel(drive, 2);
    let again = SchedulerView { phase: Phase::Querying { retried: true }, ..scheduler };
    ends_after_last_survey(again, frame, asked.push(Action::QuerySurface), (rounds - 1) as nat);
}

/// Every render call comes to an end. Against a platform that does what it is
/// asked and hands out images that the chain has, the call is over after
/// `longest_call()` reports at most, and the scheduler rests again. The call
/// ends well exactly when the scheduler was not halted, the draw succeeded,
/// and the surface offered a pair that fits wherever the chain had to be
/// rebuilt.
pub proof fn render_call_ends(scheduler: SchedulerView, frame: Frame)
    requires
        scheduler.wf(),
        scheduler.resting(),
        frame.index < frame.images.len(),
        scheduler.chain is Some ==> frame.index < (scheduler.chain->0).images.len(),
    ensures
        ({
            let out = render(scheduler, frame);
            &&& out.state.wf()
            &&& out.state.resting()
            &&& 0 < out.asked.len() <= longest_call() + 1
            &&& out.asked.last() is Done || out.asked.last() is Abort
            &&& out.asked.last() is Done <==> {
                &&& scheduler.fatal is None
                &&& frame.draw is None
                &&& rebuild_due(scheduler, frame) ==> offers_fit(frame.capabilities.formats, scheduler.pass)
            }
        }),
{
    reveal_with_fuel(drive, 2);
    let none = Seq::<Action>::empty();
    if scheduler.fatal is Some {
    } else if scheduler.chain is Some && (scheduler.chain->0).compatible(frame.extent) {
        let acquiring = SchedulerView { phase: Phase::Acquiring { retried: false }, ..scheduler };
        let asked = none.push(Action::Acquire { chain: (scheduler.chain->0).handle });
        if frame.out_of_date {
            ends_after_out_of_date(acquiring, frame, asked, 10);
        } else {
            ends_after_acquisition(acquiring, frame, asked, 10);
        }
    } else {
        let querying = SchedulerView { phase: Phase::Querying { retried: false }, ..scheduler };
        let asked = none.push(Action::QuerySurface);
        if !frame.out_of_date {
            ends_after_last_survey(querying, frame, asked, 10);
        } else {
            ends_after_survey(querying, frame, asked, 10);
            if offers_fit(frame.capabilities.formats, scheduler.pass) {
                let rebuilt = SchedulerView {
                    chain: Some(
                        ChainView::assembled(
                            scheduler.pass,
                            frame_attachments(scheduler, frame),
                            frame.chain,
                            frame.images,
                        ),
                    ),
                    phase: Phase::Acquiring { retried: false },
                    ..scheduler
                };
                let before = choose|before: Seq<Action>|
                    before.len() == asked.len() + 3 && drive(
                        querying,
                        EventView::Surface { extent: frame.extent, capabilities: frame.capabilities },
                        frame,
                        asked,
                        10,
                    ) == #[trigger] drive(rebuilt, EventView::OutOfDate, frame, before, 7);
                ends_after_out_of_date(rebuilt, frame, before, 7);
            }
        }
    }
}

/// A render call whose draw fails asks for no submission and no present, hands
/// the callback's error to the caller, and leaves the future as it was. Where
/// the call found its chain compatible and acquisition did not call it
/// suboptimal, the scheduler is exactly as before the call, so that the render
/// call after it goes as if the failed one had never run.
pub proof fn failed_draw_drops_frame(scheduler: SchedulerView, frame: Frame, next: Frame)
    requires
        scheduler.wf(),
        scheduler.resting(),
        scheduler.fatal is None,
        offers_fit(frame.capabilities.formats, scheduler.pass),
        frame.index < (if scheduler.chain is Some && (scheduler.chain->0).compatible(frame.extent) {
            (scheduler.chain->0).images.len()
        } else {
            frame.images.len()
        }),
        !frame.out_of_date,
        frame.draw is Some,
    ensures
        ({
            let out = render(scheduler, frame);
            &&& forall|i: int| 0 <= i < out.asked.len() ==> !(out.asked[i] is Submit) && !(out.asked[i] is Present)
            &&& out.asked.len() > 0 && out.asked.last() == (Action::Abort { error: RenderError::Draw(frame.draw->0) })
            &&& out.state.future == scheduler.future
            &&& out.state.phase is Ready
            &&& out.state.fatal is None
            &&& scheduler.chain is Some && (scheduler.chain->0).compatible(frame.extent) && !frame.suboptimal ==> {
                &&& out.state == scheduler
                &&& render(out.state, next) == render(scheduler, next)
            }
        }),
{
    negotiated_fits(frame.capabilities, frame.extent, scheduler.pass, scheduler.recycle());
    assembled_is_aligned(scheduler.pass, frame_attachments(scheduler, frame), frame.chain, frame.images);
    reveal_with_fuel(drive, 9);
    let out = render(scheduler, frame);
    let abort = Action::Abort { error: RenderError::Draw(frame.draw->0) };
    if scheduler.chain is Some && (scheduler.chain->0).compatible(frame.extent) {
        let chain = scheduler.chain->0;
        assert(out.asked =~= seq![
            Action::Acquire { chain: chain.handle },
            Action::Record { index: frame.index, framebuffer: chain.frame(frame.index as int), clear: frame_clear() },
            abort,
        ]);
        if !frame.suboptimal {
            assert(out.state == scheduler);
        }
    } else {
        assert(out.asked =~= rebuild_ops(scheduler, frame) + acquire_ops(scheduler, frame) + seq![abort]);
    }
}

/// The rebuilds of two runs of operations add up.
pub proof fn rebuilds_add_up(first: Seq<Action>, second: Seq<Action>)
    ensures
        rebuilds(first + second) == rebuilds(first) + rebuilds(second),
    decreases second.len(),
{
    if second.len() == 0 {
        assert(first + second =~= first);
    } else {
        assert((first + second).drop_last() =~= first + second.drop_last());
        assert((first + second).last() == second.last());
        rebuilds_add_up(first, second.drop_last());
    }
}

/// A run of operations none of which creates a chain holds no rebuild.
pub proof fn no_creation_no_rebuild(asked: Seq<Action>)
    requires
        forall|i: int| 0 <= i < asked.len() ==> !(asked[i] is CreateChain),
    ensures
        rebuilds(asked) == 0,
    decreases asked.len(),
{
    if asked.len() > 0 {
        assert(asked.last() == asked[asked.len() - 1]);
        assert forall|i: int| 0 <= i < asked.drop_last().len() implies !(asked.drop_last()[i] is CreateChain) by {
            assert(asked.drop_last()[i] == asked[i]);
        }
        no_creation_no_rebuild(asked.drop_last());
    }
}

/// What a frame has to be like for a render call to go through without a
/// fatal error and without marking the chain: the surface offers a pair that
/// fits the render pass, and acquisition calls the chain neither suboptimal
/// nor out of date.
pub open spec fn steady(pass: RenderPassDescriptor, frame: Frame) -> bool {
    offers_fit(frame.capabilities.formats, pass) && !frame.suboptimal && !frame.out_of_date
}

/// A render call on a steady frame rebuilds the chain once where it is not
/// compatible with the surface's extent, and not at all where it is. It ends
/// in `Ready`, with the chain it found or the one it built, whether or not
/// the draw succeeds.
pub proof fn call_rebuilds_when_due(scheduler: SchedulerView, frame: Frame)
    requires
        scheduler.wf(),
        scheduler.phase is Ready,
        steady(scheduler.pass, frame),
        frame.index < (if (scheduler.chain->0).compatible(frame.extent) {
            (scheduler.chain->0).images.len()
        } else {
            frame.images.len()
        }),
    ensures
        ({
            let out = render(scheduler, frame);
            let due = !(scheduler.chain->0).compatible(frame.extent);
            &&& out.state.wf()
            &&& out.state.phase is Ready
            &&& out.state.pass == scheduler.pass
            &&& rebuilds(out.asked) == (if due {
                1nat
            } else {
                0nat
            })
            &&& out.state.chain == Some(
                if due {
                    frame_chain(scheduler, frame)
                } else {
                    scheduler.chain->0
                },
            )
        }),
{
    negotiated_fits(frame.capabilities, frame.extent, scheduler.pass, scheduler.recycle());
    assembled_is_aligned(scheduler.pass, frame_attachments(scheduler, frame), frame.chain, frame.images);
    reveal_with_fuel(drive, 9);
    let out = render(scheduler, frame);
    let chain = scheduler.chain->0;
    let abort = Action::Abort { error: RenderError::Draw(frame.draw->0) };
    if chain.compatible(frame.extent) {
        if frame.draw is None {
            compatible_call(scheduler, frame);
        } else {
            assert(out.asked =~= seq![
                Action::Acquire { chain: chain.handle },
                Action::Record {
                    index: frame.index,
                    framebuffer: chain.frame(frame.index as int),
                    clear: frame_clear(),
                },
                abort,
            ]);
        }
        no_creation_no_rebuild(out.asked);
    } else {
        let rebuild = rebuild_ops(scheduler, frame);
        let rest = if frame.draw is None {
            acquire_ops(scheduler, frame) + present_ops(scheduler, frame.chain, frame)
        } else {
            acquire_ops(scheduler, frame) + seq![abort]
        };
        assert(out.asked =~= rebuild + rest);
        rebuilds_add_up(rebuild, rest);
        no_creation_no_rebuild(rest);
        assert(rebuild.drop_last() =~= seq![
            Action::QuerySurface,
            Action::AllocateDepth { extent: frame.extent, format: scheduler.pass.depth_slot().format },
        ]);
        no_creation_no_rebuild(rebuild.drop_last());
        assert(rebuild.last() is CreateChain);
    }
}

/// The frames of a run in which the surface changes its extent once, from
/// `before` to `after`, ahead of the render call at position `change`.
pub open spec fn resized_once(
    start: SchedulerView,
    frames: Seq<Frame>,
    change: int,
    before: Extent,
    after: Extent,
) -> bool {
    &&& start.wf()
    &&& start.phase is Ready
    &&& (start.chain->0).compatible(before)
    &&& before != after
    &&& 0 <= change < frames.len()
    &&& forall|i: int|
        0 <= i < frames.len() ==> {
            &&& steady(start.pass, #[trigger] frames[i])
            &&& frames[i].extent == (if i < change {
                before
            } else {
                after
            })
            &&& frames[i].index < (if i < change {
                (start.chain->0).images.len()
            } else {
                frames[change].images.len()
            })
        }
}

/// The chain that the one rebuild of such a run puts in place.
pub open spec fn resized_chain(start: SchedulerView, frames: Seq<Frame>, change: int) -> ChainView {
    ChainView::assembled(
        start.pass,
        frame_attachments(start, frames[change]),
        frames[change].chain,
        frames[change].images,
    )
}

proof fn resized_prefix(
    start: SchedulerView,
    frames: Seq<Frame>,
    change: int,
    before: Extent,
    after: Extent,
    taken: int,
)
    requires
        resized_once(start, frames, change, before, after),
        0 <= taken <= frames.len(),
    ensures
        ({
            let out = render_all(start, frames.take(taken));
            &&& out.state.wf()
            &&& out.state.phase is Ready
            &&& out.state.pass == start.pass
            &&& taken <= change ==> out.state.chain == start.chain && rebuilds(out.asked) == 0
            &&& taken > change ==> out.state.chain == Some(resized_chain(start, frames, change)) && rebuilds(
                out.asked,
            ) == 1
        }),
    decreases taken,
{
    if taken > 0 {
        let upto = frames.take(taken);
        assert(upto.drop_last() =~= frames.take(taken - 1));
        assert(upto.last() == frames[taken - 1]);
        resized_prefix(start, frames, change, before, after, taken - 1);
        let earlier = render_all(start, frames.take(taken - 1));
        let frame = frames[taken - 1];
        assembled_is_aligned(start.pass, frame_attachments(start, frames[change]), frames[change].chain, frames[change].images);
        call_rebuilds_when_due(earlier.state, frame);
        rebuilds_add_up(earlier.asked, render(earlier.state, frame).asked);
    }
}

/// The chain in place after the first `taken` render calls.
pub open spec fn chain_after(start: SchedulerView, frames: Seq<Frame>, taken: int) -> ChainView {
    render_all(start, frames.take(taken)).state.chain->0
}

/// The chain and each of its framebuffers have the extent `extent`, and
/// there is one framebuffer for each image.
pub open spec fn all_of_extent(chain: ChainView, extent: Extent) -> bool {
    &&& chain.extent == extent
    &&& chain.framebuffers.len() == chain.images.len()
    &&& forall|i: int| 0 <= i < chain.framebuffers.len() ==> (#[trigger] chain.framebuffers[i]).extent == extent
}

/// A change of extent leads to exactly one rebuild.
///
/// Over any number of render calls on steady frames, from a chain that is
/// compatible with the surface, in which the surface changes its extent once:
/// the chain is created exactly once, and after every render call from the
/// change on, the chain has the new extent and so has each of its
/// framebuffers.
pub proof fn one_resize_one_rebuild(
    start: SchedulerView,
    frames: Seq<Frame>,
    change: int,
    before: Extent,
    after: Extent,
)
    requires
        resized_once(start, frames, change, before, after),
    ensures
        rebuilds(render_all(start, frames).asked) == 1,
        forall|taken: int|
            change < taken <= frames.len() ==> all_of_extent(#[trigger] chain_after(start, frames, taken), after),
{
    assert(frames.take(frames.len() as int) =~= frames);
    resized_prefix(start, frames, change, before, after, frames.len() as int);
    assembled_is_aligned(start.pass, frame_attachments(start, frames[change]), frames[change].chain, frames[change].images);
    assert forall|taken: int| change < taken <= frames.len() implies all_of_extent(
        #[trigger] chain_after(start, frames, taken),
        after,
    ) by {
        resized_prefix(start, frames, change, before, after, taken);
    }
}

} // verus!
