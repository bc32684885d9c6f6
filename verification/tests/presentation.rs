use presenter::attachment::ImageHandle;
use presenter::chain::{ChainHandle, CreatedChain, SurfaceCapabilities};
use presenter::device::{Device, Queues};
use presenter::error::{DrawError, Failure, Fatal, RenderError, Stage};
use presenter::extent::Extent;
use presenter::format::{ColorSpace, Format, PresentMode, SurfaceFormat, Transform};
use presenter::render_pass::RenderPassDescriptor;
use presenter::scheduler::{Action, ClearDepth, Event, FrameFuture, FrameScheduler, Phase};
use presenter::surface::Surface;

/// A platform that does what it is asked, counts what it did, and can be told
/// to misbehave in a few ways.
struct Platform {
    extent: Extent,
    image_count: u64,
    next_image: u32,
    next_id: u64,
    suboptimal_acquires: u32,
    out_of_date_acquires: u32,
    failing_draws: u32,
    queries: u32,
    allocations: u32,
    creations: u32,
    acquires: Vec<u32>,
    records: Vec<(u32, Extent)>,
    submits: Vec<Option<FrameFuture>>,
    presents: Vec<u32>,
    acquired_per_image: Vec<u32>,
    presented_per_image: Vec<u32>,
    reuse_seen: bool,
}

impl Platform {
    fn new(width: u32, height: u32) -> Platform {
        Platform {
            extent: Extent::new(width, height),
            image_count: 3,
            next_image: 0,
            next_id: 100,
            suboptimal_acquires: 0,
            out_of_date_acquires: 0,
            failing_draws: 0,
            queries: 0,
            allocations: 0,
            creations: 0,
            acquires: Vec::new(),
            records: Vec::new(),
            submits: Vec::new(),
            presents: Vec::new(),
            acquired_per_image: vec![0; 3],
            presented_per_image: vec![0; 3],
            reuse_seen: false,
        }
    }

    fn fresh_id(&mut self) -> u64 {
        self.next_id += 1;
        self.next_id
    }

    fn capabilities() -> SurfaceCapabilities {
        SurfaceCapabilities {
            formats: vec![
                SurfaceFormat { format: Format::B8G8R8A8Unorm, color_space: ColorSpace::SrgbNonLinear },
                SurfaceFormat { format: Format::B8G8R8A8Srgb, color_space: ColorSpace::SrgbNonLinear },
                SurfaceFormat { format: Format::B8G8R8A8Srgb, color_space: ColorSpace::ExtendedSrgbLinear },
                SurfaceFormat { format: Format::R8G8B8A8Srgb, color_space: ColorSpace::Bt709Linear },
            ],
            min_image_count: 3,
            transform: Transform::Identity,
        }
    }

    fn answer(&mut self, action: Action) -> Option<Event> {
        match action {
            Action::QuerySurface => {
                self.queries += 1;
                Some(Event::Surface { extent: self.extent, capabilities: Platform::capabilities() })
            }
            Action::AllocateDepth { .. } => {
                self.allocations += 1;
                let id = self.fresh_id();
                Some(Event::DepthAllocated { image: ImageHandle { id } })
            }
            Action::CreateChain { request } => {
                self.creations += 1;
                assert_eq!(request.present_mode, PresentMode::Fifo);
                let handle = ChainHandle { id: self.fresh_id() };
                let mut images = Vec::new();
                for _ in 0..self.image_count {
                    images.push(ImageHandle { id: self.fresh_id() });
                }
                self.next_image = 0;
                Some(Event::ChainCreated { chain: CreatedChain { handle, images } })
            }
            Action::Acquire { .. } => {
                if self.out_of_date_acquires > 0 {
                    self.out_of_date_acquires -= 1;
                    return Some(Event::OutOfDate);
                }
                let index = self.next_image;
                self.next_image = (self.next_image + 1) % (self.image_count as u32);
                self.acquires.push(index);
                if self.acquired_per_image[index as usize] > self.presented_per_image[index as usize] {
                    self.reuse_seen = true;
                }
                self.acquired_per_image[index as usize] += 1;
                let suboptimal = self.suboptimal_acquires > 0;
                if suboptimal {
                    self.suboptimal_acquires -= 1;
                }
                Some(Event::Acquired { index, suboptimal })
            }
            Action::Record { index, framebuffer, clear } => {
                assert_eq!(clear.depth, ClearDepth::Far);
                self.records.push((index, framebuffer.extent));
                if self.failing_draws > 0 {
                    self.failing_draws -= 1;
                    Some(Event::DrawFailed { error: DrawError { code: 7 } })
                } else {
                    Some(Event::Drawn)
                }
            }
            Action::Submit { after, .. } => {
                self.submits.push(after);
                Some(Event::Submitted)
            }
            Action::Present { index, .. } => {
                self.presents.push(index);
                self.presented_per_image[index as usize] += 1;
                let id = self.fresh_id();
                Some(Event::Presented { future: FrameFuture { id }, suboptimal: false })
            }
            Action::Done | Action::Abort { .. } => None,
        }
    }
}

fn test_queues() -> Queues {
    Queues { transfer: 0, graphics: 1, presentation: 2 }
}

fn test_device() -> Device {
    Device::new(
        vec![Format::B8G8R8A8Srgb, Format::B8G8R8A8Unorm, Format::R8G8B8A8Srgb],
        vec![Format::D32Sfloat, Format::D24UnormS8Uint],
    )
}

fn test_surface() -> Surface {
    match Surface::new(test_device(), test_queues(), &Platform::capabilities(), Format::D32Sfloat) {
        Ok(surface) => surface,
        Err(fatal) => panic!("no surface: {:?}", fatal),
    }
}

/// One render call: the surface asks, the platform answers, until the call is over.
fn render_once(surface: &mut Surface, platform: &mut Platform) -> Result<(), RenderError> {
    let mut action = surface.render(platform.extent);
    loop {
        match action {
            Some(Action::Done) => return Ok(()),
            Some(Action::Abort { error }) => return Err(error),
            Some(asked) => match platform.answer(asked) {
                Some(event) => action = surface.resume(event),
                None => unreachable!(),
            },
            None => panic!("the scheduler did not take what the platform reported"),
        }
    }
}

#[test]
fn compatible_chain_presents_one_frame() {
    let mut surface = test_surface();
    let mut platform = Platform::new(800, 600);
    assert_eq!(render_once(&mut surface, &mut platform), Ok(()));
    let first_future = surface.scheduler().future();
    assert!(first_future.is_some());
    let chain_before = surface.scheduler().chain().map(|chain| chain.handle());
    let creations = platform.creations;
    let acquires = platform.acquires.len();
    let submits = platform.submits.len();
    let presents = platform.presents.len();

    assert!(surface.scheduler().chain().unwrap().is_compatible(Extent::new(800, 600)));
    assert_eq!(render_once(&mut surface, &mut platform), Ok(()));

    assert_eq!(platform.creations, creations);
    assert_eq!(platform.acquires.len(), acquires + 1);
    assert_eq!(platform.submits.len(), submits + 1);
    assert_eq!(platform.presents.len(), presents + 1);
    assert_eq!(platform.submits[submits], first_future);
    assert_eq!(platform.presents[presents], platform.acquires[acquires]);
    let second_future = surface.scheduler().future();
    assert!(second_future.is_some());
    assert_ne!(second_future, first_future);
    assert_eq!(surface.scheduler().chain().map(|chain| chain.handle()), chain_before);
    assert_eq!(surface.scheduler().phase(), Phase::Ready);
}

#[test]
fn resize_rebuilds_before_acquiring() {
    let mut surface = test_surface();
    let mut platform = Platform::new(800, 600);
    assert_eq!(render_once(&mut surface, &mut platform), Ok(()));
    assert_eq!(platform.creations, 1);
    assert_eq!(surface.scheduler().chain().unwrap().extent(), Extent::new(800, 600));

    platform.extent = Extent::new(1024, 768);
    let first = surface.render(platform.extent);
    assert_eq!(first, Some(Action::QuerySurface));
    let mut action = first;
    let mut asked = Vec::new();
    loop {
        match action {
            Some(Action::Done) => break,
            Some(step) => {
                asked.push(step);
                action = surface.resume(platform.answer(step).unwrap());
            }
            None => panic!("stuck"),
        }
    }
    let created = asked.iter().position(|step| matches!(step, Action::CreateChain { .. })).unwrap();
    let acquired = asked.iter().position(|step| matches!(step, Action::Acquire { .. })).unwrap();
    assert!(created < acquired);
    assert_eq!(platform.creations, 2);

    for _ in 0..4 {
        assert_eq!(render_once(&mut surface, &mut platform), Ok(()));
    }
    assert_eq!(platform.creations, 2);
    let chain = surface.scheduler().chain().unwrap();
    assert_eq!(chain.extent(), Extent::new(1024, 768));
    assert_eq!(chain.attachments().extent, Extent::new(1024, 768));
    for framebuffer in chain.framebuffers() {
        assert_eq!(framebuffer.extent, Extent::new(1024, 768));
    }
    for (_, extent) in &platform.records[1..] {
        assert_eq!(*extent, Extent::new(1024, 768));
    }
}

#[test]
fn suboptimal_acquire_presents_then_rebuilds() {
    let mut surface = test_surface();
    let mut platform = Platform::new(800, 600);
    assert_eq!(render_once(&mut surface, &mut platform), Ok(()));
    assert_eq!(platform.creations, 1);

    platform.suboptimal_acquires = 1;
    assert_eq!(render_once(&mut surface, &mut platform), Ok(()));
    assert_eq!(platform.creations, 1);
    assert_eq!(platform.presents.len(), 2);
    assert_eq!(platform.submits.len(), 2);
    let chain = surface.scheduler().chain().unwrap();
    assert!(!chain.is_optimal());
    assert_eq!(chain.extent(), Extent::new(800, 600));
    assert!(!chain.is_compatible(Extent::new(800, 600)));

    assert_eq!(surface.render(Extent::new(800, 600)), Some(Action::QuerySurface));
    let mut action = surface.resume(platform.answer(Action::QuerySurface).unwrap());
    while let Some(step) = action {
        match platform.answer(step) {
            Some(event) => action = surface.resume(event),
            None => break,
        }
    }
    assert_eq!(platform.creations, 2);
    assert_eq!(platform.presents.len(), 3);
    assert!(surface.scheduler().chain().unwrap().is_optimal());
}

#[test]
fn one_extent_change_gives_exactly_one_rebuild() {
    let mut surface = test_surface();
    let mut platform = Platform::new(800, 600);
    assert_eq!(render_once(&mut surface, &mut platform), Ok(()));
    let creations = platform.creations;
    for call in 0..10 {
        if call == 4 {
            platform.extent = Extent::new(640, 480);
        }
        assert_eq!(render_once(&mut surface, &mut platform), Ok(()));
        let expected = if call < 4 { Extent::new(800, 600) } else { Extent::new(640, 480) };
        let chain = surface.scheduler().chain().unwrap();
        assert_eq!(chain.framebuffers().len(), chain.images().len());
        for framebuffer in chain.framebuffers() {
            assert_eq!(framebuffer.extent, expected);
        }
    }
    assert_eq!(platform.creations, creations + 1);
    assert_eq!(platform.queries, 2);
    assert_eq!(platform.allocations, 2);
}

#[test]
fn framebuffers_are_aligned_with_images() {
    let mut surface = test_surface();
    let mut platform = Platform::new(320, 200);
    assert_eq!(render_once(&mut surface, &mut platform), Ok(()));
    let chain = surface.scheduler().chain().unwrap();
    assert_eq!(chain.images().len(), 3);
    assert_eq!(chain.framebuffers().len(), chain.images().len());
    let depth = chain.attachments().depth;
    for (index, framebuffer) in chain.framebuffers().iter().enumerate() {
        assert_eq!(framebuffer.color, chain.images()[index]);
        assert_eq!(framebuffer.depth, depth);
        assert_eq!(framebuffer.extent, Extent::new(320, 200));
        assert_eq!(framebuffer.pass, *surface.render_pass());
        assert_eq!(chain.framebuffer(index as u32), Some(*framebuffer));
    }
    assert_eq!(chain.framebuffer(3), None);
}

#[test]
fn no_image_is_acquired_again_before_its_present() {
    let mut surface = test_surface();
    let mut platform = Platform::new(800, 600);
    for call in 0..12 {
        if call == 5 {
            platform.extent = Extent::new(801, 600);
        }
        if call == 8 {
            platform.suboptimal_acquires = 1;
        }
        assert_eq!(render_once(&mut surface, &mut platform), Ok(()));
        for image in 0..3 {
            assert!(platform.acquired_per_image[image] <= platform.presented_per_image[image]);
        }
    }
    assert!(!platform.reuse_seen);
    assert_eq!(platform.acquires, platform.presents);
    assert_eq!(platform.acquires.len(), 12);
}

#[test]
fn draw_failure_is_frame_local() {
    let mut surface = test_surface();
    let mut platform = Platform::new(800, 600);
    assert_eq!(render_once(&mut surface, &mut platform), Ok(()));
    let future = surface.scheduler().future();
    let handle = surface.scheduler().chain().unwrap().handle();
    let images = surface.scheduler().chain().unwrap().images().clone();
    let submits = platform.submits.len();
    let presents = platform.presents.len();

    platform.failing_draws = 1;
    assert_eq!(
        render_once(&mut surface, &mut platform),
        Err(RenderError::Draw(DrawError { code: 7 }))
    );
    assert_eq!(platform.submits.len(), submits);
    assert_eq!(platform.presents.len(), presents);
    assert_eq!(surface.scheduler().future(), future);
    assert_eq!(surface.scheduler().chain().unwrap().handle(), handle);
    assert_eq!(surface.scheduler().chain().unwrap().images(), &images);
    assert!(surface.scheduler().chain().unwrap().is_optimal());
    assert_eq!(surface.scheduler().phase(), Phase::Ready);
    assert_eq!(surface.scheduler().fatal(), None);

    assert_eq!(render_once(&mut surface, &mut platform), Ok(()));
    assert_eq!(platform.creations, 1);
    assert_eq!(platform.submits.len(), submits + 1);
    assert_eq!(platform.submits[submits], future);
    assert_eq!(platform.presents.len(), presents + 1);
}

#[test]
fn first_render_builds_the_chain_lazily() {
    let mut surface = test_surface();
    assert_eq!(surface.scheduler().phase(), Phase::Idle);
    assert!(surface.scheduler().chain().is_none());
    assert_eq!(surface.scheduler().future(), None);

    let mut platform = Platform::new(800, 600);
    assert_eq!(surface.render(platform.extent), Some(Action::QuerySurface));
    assert_eq!(surface.scheduler().phase(), Phase::Querying { retried: false });
    let action = surface.resume(platform.answer(Action::QuerySurface).unwrap());
    assert_eq!(
        action,
        Some(Action::AllocateDepth { extent: Extent::new(800, 600), format: Format::D32Sfloat })
    );
    let action = surface.resume(Event::DepthAllocated { image: ImageHandle { id: 9 } });
    let request = match action {
        Some(Action::CreateChain { request }) => request,
        other => panic!("unexpected {:?}", other),
    };
    assert_eq!(request.extent, Extent::new(800, 600));
    assert_eq!(request.image_count, 3);
    assert_eq!(
        request.format,
        SurfaceFormat { format: Format::B8G8R8A8Srgb, color_space: ColorSpace::ExtendedSrgbLinear }
    );
    assert_eq!(request.present_mode, PresentMode::Fifo);
    assert_eq!(request.transform, Transform::Identity);
    assert_eq!(request.recycle, None);
    let created = CreatedChain {
        handle: ChainHandle { id: 40 },
        images: vec![ImageHandle { id: 41 }, ImageHandle { id: 42 }],
    };
    let action = surface.resume(Event::ChainCreated { chain: created });
    assert_eq!(action, Some(Action::Acquire { chain: ChainHandle { id: 40 } }));
    let action = surface.resume(Event::Acquired { index: 1, suboptimal: false });
    match action {
        Some(Action::Record { index, framebuffer, clear }) => {
            assert_eq!(index, 1);
            assert_eq!(framebuffer.color, ImageHandle { id: 42 });
            assert_eq!(framebuffer.depth, ImageHandle { id: 9 });
            assert_eq!(framebuffer.extent, Extent::new(800, 600));
            assert_eq!((clear.color.red, clear.color.green, clear.color.blue, clear.color.alpha), (0, 0, 0, 255));
            assert_eq!(clear.depth, ClearDepth::Far);
        }
        other => panic!("unexpected {:?}", other),
    }
    assert_eq!(surface.resume(Event::Drawn), Some(Action::Submit { queue: 1, index: 1, after: None }));
    assert_eq!(
        surface.resume(Event::Submitted),
        Some(Action::Present { queue: 2, chain: ChainHandle { id: 40 }, index: 1 })
    );
    assert_eq!(
        surface.resume(Event::Presented { future: FrameFuture { id: 77 }, suboptimal: false }),
        Some(Action::Done)
    );
    assert_eq!(surface.scheduler().future(), Some(FrameFuture { id: 77 }));
    assert_eq!(surface.finish(), Some(FrameFuture { id: 77 }));
}

#[test]
fn rebuild_recycles_the_previous_chain() {
    let mut surface = test_surface();
    let mut platform = Platform::new(800, 600);
    assert_eq!(render_once(&mut surface, &mut platform), Ok(()));
    let old = surface.scheduler().chain().unwrap().handle();
    assert_eq!(surface.render(Extent::new(10, 10)), Some(Action::QuerySurface));
    platform.extent = Extent::new(10, 10);
    surface.resume(platform.answer(Action::QuerySurface).unwrap());
    match surface.resume(Event::DepthAllocated { image: ImageHandle { id: 1 } }) {
        Some(Action::CreateChain { request }) => {
            assert_eq!(request.recycle, Some(old));
            assert_eq!(request.extent, Extent::new(10, 10));
        }
        other => panic!("unexpected {:?}", other),
    }
}

#[test]
fn out_of_date_acquire_rebuilds_and_retries_once() {
    let mut surface = test_surface();
    let mut platform = Platform::new(800, 600);
    assert_eq!(render_once(&mut surface, &mut platform), Ok(()));
    platform.out_of_date_acquires = 1;
    assert_eq!(render_once(&mut surface, &mut platform), Ok(()));
    assert_eq!(platform.creations, 2);
    assert_eq!(platform.presents.len(), 2);
    assert_eq!(surface.scheduler().fatal(), None);
}

#[test]
fn second_out_of_date_acquire_is_fatal() {
    let mut surface = test_surface();
    let mut platform = Platform::new(800, 600);
    assert_eq!(render_once(&mut surface, &mut platform), Ok(()));
    platform.out_of_date_acquires = 2;
    let lost = Fatal { stage: Stage::Acquire, cause: Failure::SurfaceLost };
    assert_eq!(render_once(&mut surface, &mut platform), Err(RenderError::Fatal(lost)));
    assert_eq!(platform.creations, 2);
    assert_eq!(platform.presents.len(), 1);
    assert_eq!(surface.scheduler().fatal(), Some(lost));
    assert_eq!(surface.scheduler().phase(), Phase::Idle);
    assert!(surface.scheduler().chain().is_none());

    let submits = platform.submits.len();
    assert_eq!(render_once(&mut surface, &mut platform), Err(RenderError::Fatal(lost)));
    assert_eq!(platform.creations, 2);
    assert_eq!(platform.submits.len(), submits);
    assert_eq!(surface.resume(Event::Drawn), None);
}

#[test]
fn platform_failures_are_fatal_with_their_stage() {
    let stages = [
        (0, Stage::Rebuild, Failure::SurfaceLost),
        (1, Stage::Rebuild, Failure::OutOfDeviceMemory),
        (2, Stage::Rebuild, Failure::SurfaceLost),
        (3, Stage::Acquire, Failure::DeviceLost),
        (5, Stage::Submit, Failure::DeviceLost),
        (6, Stage::Present, Failure::SurfaceLost),
    ];
    for (fail_at, stage, cause) in stages {
        let mut surface = test_surface();
        let mut platform = Platform::new(800, 600);
        let mut action = surface.render(platform.extent);
        let mut taken = 0;
        let error = loop {
            match action {
                Some(Action::Abort { error }) => break error,
                Some(Action::Done) => panic!("the frame went through"),
                Some(step) => {
                    let event = if taken == fail_at {
                        Event::Failed { cause }
                    } else {
                        platform.answer(step).unwrap()
                    };
                    taken += 1;
                    action = surface.resume(event);
                }
                None => panic!("stuck at {}", taken),
            }
        };
        assert_eq!(error, RenderError::Fatal(Fatal { stage, cause }));
        assert!(!error.is_recoverable());
        assert_eq!(error.stage(), Some(stage));
        assert_eq!(surface.scheduler().fatal(), Some(Fatal { stage, cause }));
    }
}

#[test]
fn failure_report_is_not_taken_while_recording() {
    let mut surface = test_surface();
    let mut platform = Platform::new(800, 600);
    let mut action = surface.render(platform.extent);
    while !matches!(action, Some(Action::Record { .. })) {
        action = surface.resume(platform.answer(action.unwrap()).unwrap());
    }
    assert_eq!(surface.resume(Event::Failed { cause: Failure::DeviceLost }), None);
    assert_eq!(surface.scheduler().phase(), Phase::Recording { index: 0 });
    assert_eq!(surface.resume(Event::Drawn), Some(Action::Submit { queue: 1, index: 0, after: None }));
}

#[test]
fn unsupported_surface_format_at_rebuild_is_fatal() {
    let mut surface = test_surface();
    assert_eq!(surface.render(Extent::new(800, 600)), Some(Action::QuerySurface));
    let capabilities = SurfaceCapabilities {
        formats: vec![
            SurfaceFormat { format: Format::B8G8R8A8Srgb, color_space: ColorSpace::SrgbNonLinear },
            SurfaceFormat { format: Format::R8G8B8A8Srgb, color_space: ColorSpace::ExtendedSrgbLinear },
        ],
        min_image_count: 2,
        transform: Transform::Identity,
    };
    let fatal = Fatal { stage: Stage::Rebuild, cause: Failure::UnsupportedSurfaceFormat };
    assert_eq!(
        surface.resume(Event::Surface { extent: Extent::new(800, 600), capabilities }),
        Some(Action::Abort { error: RenderError::Fatal(fatal) })
    );
    assert_eq!(surface.render(Extent::new(800, 600)), Some(Action::Abort { error: RenderError::Fatal(fatal) }));
}

#[test]
fn events_out_of_turn_change_nothing() {
    let mut surface = test_surface();
    assert_eq!(surface.resume(Event::Drawn), None);
    assert_eq!(surface.resume(Event::Acquired { index: 0, suboptimal: false }), None);
    assert_eq!(surface.scheduler().phase(), Phase::Idle);
    let mut platform = Platform::new(800, 600);
    assert_eq!(surface.render(platform.extent), Some(Action::QuerySurface));
    assert_eq!(surface.render(platform.extent), None);
    assert_eq!(surface.resume(Event::Submitted), None);
    assert_eq!(surface.scheduler().phase(), Phase::Querying { retried: false });
    let mut action = surface.resume(platform.answer(Action::QuerySurface).unwrap());
    while !matches!(action, Some(Action::Acquire { .. })) {
        action = surface.resume(platform.answer(action.unwrap()).unwrap());
    }
    assert_eq!(surface.resume(Event::Acquired { index: 3, suboptimal: false }), None);
    assert_eq!(surface.scheduler().phase(), Phase::Acquiring { retried: false });
    assert!(matches!(
        surface.resume(Event::Acquired { index: 2, suboptimal: false }),
        Some(Action::Record { index: 2, .. })
    ));
}

#[test]
fn present_out_of_date_ends_the_frame_and_marks_the_chain() {
    let mut surface = test_surface();
    let mut platform = Platform::new(800, 600);
    assert_eq!(render_once(&mut surface, &mut platform), Ok(()));
    let mut action = surface.render(platform.extent);
    while !matches!(action, Some(Action::Present { .. })) {
        action = surface.resume(platform.answer(action.unwrap()).unwrap());
    }
    assert_eq!(surface.scheduler().future(), None);
    assert_eq!(surface.resume(Event::OutOfDate), Some(Action::Done));
    assert_eq!(surface.scheduler().future(), None);
    assert!(!surface.scheduler().chain().unwrap().is_optimal());
    assert_eq!(surface.render(platform.extent), Some(Action::QuerySurface));
}

#[test]
fn suboptimal_present_marks_the_chain() {
    let mut surface = test_surface();
    let mut platform = Platform::new(800, 600);
    let mut action = surface.render(platform.extent);
    while !matches!(action, Some(Action::Present { .. })) {
        action = surface.resume(platform.answer(action.unwrap()).unwrap());
    }
    assert_eq!(
        surface.resume(Event::Presented { future: FrameFuture { id: 5 }, suboptimal: true }),
        Some(Action::Done)
    );
    assert_eq!(surface.scheduler().future(), Some(FrameFuture { id: 5 }));
    assert!(!surface.scheduler().chain().unwrap().is_compatible(Extent::new(800, 600)));
}

#[test]
fn scheduler_can_be_stepped_by_value() {
    let pass = RenderPassDescriptor::build(&test_device(), Format::B8G8R8A8Srgb, Format::D32Sfloat).unwrap();
    let scheduler = FrameScheduler::new(pass, test_queues());
    assert_eq!(scheduler.queues(), test_queues());
    assert_eq!(*scheduler.render_pass(), pass);
    let (scheduler, action) = scheduler.advance(Event::Render { extent: Extent::new(1, 1) });
    assert_eq!(action, Some(Action::QuerySurface));
    let (scheduler, action) = scheduler.advance(Event::Failed { cause: Failure::SurfaceLost });
    assert_eq!(
        action,
        Some(Action::Abort {
            error: RenderError::Fatal(Fatal { stage: Stage::Rebuild, cause: Failure::SurfaceLost })
        })
    );
    assert_eq!(scheduler.finish(), None);
}

#[test]
fn surface_new_reports_configuration_errors() {
    let no_pair = SurfaceCapabilities {
        formats: vec![SurfaceFormat { format: Format::B8G8R8A8Srgb, color_space: ColorSpace::SrgbNonLinear }],
        min_image_count: 2,
        transform: Transform::Identity,
    };
    match Surface::new(test_device(), test_queues(), &no_pair, Format::D32Sfloat) {
        Err(fatal) => assert_eq!(fatal, Fatal { stage: Stage::Build, cause: Failure::UnsupportedSurfaceFormat }),
        Ok(_) => panic!("built"),
    }
    match Surface::new(test_device(), test_queues(), &Platform::capabilities(), Format::D16Unorm) {
        Err(fatal) => assert_eq!(fatal, Fatal { stage: Stage::Build, cause: Failure::UnsupportedFormat }),
        Ok(_) => panic!("built"),
    }
    let narrow = Device::new(vec![Format::R8G8B8A8Srgb], vec![Format::D32Sfloat]);
    match Surface::new(narrow, test_queues(), &Platform::capabilities(), Format::D32Sfloat) {
        Err(fatal) => assert_eq!(fatal, Fatal { stage: Stage::Build, cause: Failure::UnsupportedFormat }),
        Ok(_) => panic!("built"),
    }
    let surface = test_surface();
    assert_eq!(surface.render_pass().color().format, Format::B8G8R8A8Srgb);
    assert_eq!(surface.render_pass().depth().format, Format::D32Sfloat);
    assert!(surface.device().supports_color(Format::B8G8R8A8Srgb));
    assert!(!surface.device().supports_depth(Format::D16Unorm));
}
