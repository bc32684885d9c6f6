//! The presentation chain: the images that cycle between rendering and the
//! screen, with one framebuffer for each.

use vstd::prelude::*;
use crate::attachment::{AttachmentSet, ImageHandle};
use crate::error::Failure;
use crate::extent::Extent;
use crate::format::{PresentMode, SurfaceFormat, Transform};
use crate::render_pass::RenderPassDescriptor;

verus! {

/// Name that the platform gave to a presentation chain.
#[derive(Clone, Copy, Debug, PartialEq, Eq, Structural)]
pub struct ChainHandle {
    pub id: u64,
}

/// What a surface can do, as far as building a chain for it goes.
pub struct SurfaceCapabilities {
    /// The format and color space pairs that the surface can show.
    pub formats: Vec<SurfaceFormat>,
    /// The least number of images a chain for the surface holds.
    pub min_image_count: u32,
    /// The rotation that the surface applies at present.
    pub transform: Transform,
}

/// A `SurfaceCapabilities` with its list of pairs as a sequence.
pub struct CapabilitiesView {
    pub formats: Seq<SurfaceFormat>,
    pub min_image_count: u32,
    pub transform: Transform,
}

impl View for SurfaceCapabilities {
    type V = CapabilitiesView;

    open spec fn view(&self) -> CapabilitiesView {
        CapabilitiesView {
            formats: self.formats@,
            min_image_count: self.min_image_count,
            transform: self.transform,
        }
    }
}

/// What the engine asks of the platform when it wants a chain created.
#[derive(Clone, Copy, Debug, PartialEq, Eq, Structural)]
pub struct ChainRequest {
    /// Size of the images.
    pub extent: Extent,
    /// Number of images asked for.
    pub image_count: u32,
    /// Format and color space of the images.
    pub format: SurfaceFormat,
    /// Always `Fifo`, the one mode that every device has.
    pub present_mode: PresentMode,
    pub transform: Transform,
    /// The chain that the new one replaces, so that the platform may reuse what
    /// it holds. Its images are never used again.
    pub recycle: Option<ChainHandle>,
}

/// A chain as the platform created it.
pub struct CreatedChain {
    pub handle: ChainHandle,
    /// The presentable images, in the order of their indices.
    pub images: Vec<ImageHandle>,
}

/// Binding of one presentable image and the depth image to the attachment
/// slots of a render pass.
#[derive(Clone, Copy, Debug, PartialEq, Eq, Structural)]
pub struct Framebuffer {
    pub pass: RenderPassDescriptor,
    pub color: ImageHandle,
    pub depth: ImageHandle,
    pub extent: Extent,
}

/// Whether the engine can present in `pair` with the render pass `pass`: the
/// pair is one the engine presents in, and the pass draws in its format.
pub open spec fn fits(pair: SurfaceFormat, pass: RenderPassDescriptor) -> bool {
    pair.presentable() && pair.format == pass.color_slot().format
}

/// `i` is the position of the first pair of `formats` that fits `pass`.
pub open spec fn is_first_fit(formats: Seq<SurfaceFormat>, pass: RenderPassDescriptor, i: int) -> bool {
    &&& 0 <= i < formats.len()
    &&& fits(formats[i], pass)
    &&& forall|j: int| 0 <= j < i ==> !fits(#[trigger] formats[j], pass)
}

/// Some pair of `formats` fits `pass`.
pub open spec fn offers_fit(formats: Seq<SurfaceFormat>, pass: RenderPassDescriptor) -> bool {
    exists|i: int| 0 <= i < formats.len() && fits(#[trigger] formats[i], pass)
}

/// The first pair of `formats` that fits `pass`, where there is one.
pub open spec fn first_fit(formats: Seq<SurfaceFormat>, pass: RenderPassDescriptor) -> SurfaceFormat {
    formats[choose|i: int| is_first_fit(formats, pass, i)]
}

/// The request that is made of a surface with `capabilities` for a chain of
/// `extent` drawn with `pass`, or `None` when the surface offers no pair that
/// fits: as many images as the surface asks for at least, the first pair that
/// fits, the ordered present mode, and the surface's own transform.
pub open spec fn negotiated(
    capabilities: CapabilitiesView,
    extent: Extent,
    pass: RenderPassDescriptor,
    recycle: Option<ChainHandle>,
) -> Option<ChainRequest> {
    if offers_fit(capabilities.formats, pass) {
        Some(
            ChainRequest {
                extent,
                image_count: capabilities.min_image_count,
                format: first_fit(capabilities.formats, pass),
                present_mode: PresentMode::Fifo,
                transform: capabilities.transform,
                recycle,
            },
        )
    } else {
        None
    }
}

/// The first fit is at one position only.
pub proof fn first_fit_is_unique(formats: Seq<SurfaceFormat>, pass: RenderPassDescriptor, i: int, j: int)
    requires
        is_first_fit(formats, pass, i),
        is_first_fit(formats, pass, j),
    ensures
        i == j,
{
    if i < j {
        assert(!fits(formats[i], pass));
    } else if j < i {
        assert(!fits(formats[j], pass));
    }
}

proof fn least_fit(formats: Seq<SurfaceFormat>, pass: RenderPassDescriptor, bound: int) -> (i: int)
    requires
        0 <= bound < formats.len(),
        fits(formats[bound], pass),
    ensures
        is_first_fit(formats, pass, i),
    decreases bound,
{
    if exists|j: int| 0 <= j < bound && fits(#[trigger] formats[j], pass) {
        let j = choose|j: int| 0 <= j < bound && fits(#[trigger] formats[j], pass);
        least_fit(formats, pass, j)
    } else {
        bound
    }
}

/// Where some pair fits, there is a first one, and it is the one asked for.
pub proof fn negotiated_fits(
    capabilities: CapabilitiesView,
    extent: Extent,
    pass: RenderPassDescriptor,
    recycle: Option<ChainHandle>,
)
    ensures
        negotiated(capabilities, extent, pass, recycle) is Some <==> offers_fit(capabilities.formats, pass),
        offers_fit(capabilities.formats, pass) ==> fits(first_fit(capabilities.formats, pass), pass)
            && capabilities.formats.contains(first_fit(capabilities.formats, pass)),
{
    let formats = capabilities.formats;
    if offers_fit(formats, pass) {
        let some = choose|i: int| 0 <= i < formats.len() && fits(#[trigger] formats[i], pass);
        let first = least_fit(formats, pass, some);
        let chosen = choose|i: int| is_first_fit(formats, pass, i);
        assert(is_first_fit(formats, pass, chosen));
        assert(formats[chosen] == first_fit(formats, pass));
    }
}

/// A presentation chain, seen as plain values.
pub struct ChainView {
    pub handle: ChainHandle,
    /// The render pass that the framebuffers are bound to.
    pub pass: RenderPassDescriptor,
    pub extent: Extent,
    pub images: Seq<ImageHandle>,
    pub attachments: AttachmentSet,
    pub framebuffers: Seq<Framebuffer>,
    /// Cleared when the platform reports that the chain no longer matches the
    /// surface well.
    pub optimal: bool,
}

impl ChainView {
    /// The framebuffer that belongs to image `i`.
    pub open spec fn frame(self, i: int) -> Framebuffer {
        Framebuffer {
            pass: self.pass,
            color: self.images[i],
            depth: self.attachments.depth,
            extent: self.extent,
        }
    }

    /// There is one framebuffer for each image, at the image's index and built
    /// from it; all of them share the depth image and have the chain's extent,
    /// which is also the size of the depth image.
    pub open spec fn wf(self) -> bool {
        &&& self.attachments.extent == self.extent
        &&& self.framebuffers.len() == self.images.len()
        &&& forall|i: int| 0 <= i < self.images.len() ==> #[trigger] self.framebuffers[i] == self.frame(i)
    }

    /// The chain can take the next frame of a surface that is `current_extent` large.
    pub open spec fn compatible(self, current_extent: Extent) -> bool {
        self.optimal && self.extent == current_extent
    }

    /// The chain with its `optimal` flag cleared.
    pub open spec fn stale(self) -> ChainView {
        ChainView { optimal: false, ..self }
    }

    /// The chain made of what the platform created: `images` under `handle`,
    /// each bound with the depth image of `attachments` to `pass`.
    pub open spec fn assembled(
        pass: RenderPassDescriptor,
        attachments: AttachmentSet,
        handle: ChainHandle,
        images: Seq<ImageHandle>,
    ) -> ChainView {
        ChainView {
            handle,
            pass,
            extent: attachments.extent,
            images,
            attachments,
            framebuffers: Seq::new(
                images.len(),
                |i: int|
                    Framebuffer {
                        pass,
                        color: images[i],
                        depth: attachments.depth,
                        extent: attachments.extent,
                    },
            ),
            optimal: true,
        }
    }

    /// What `rebuild` gives for a request, the render pass, the attachments
    /// built for the request, and what the platform created, if anything.
    pub open spec fn rebuilt(
        request: ChainRequest,
        pass: RenderPassDescriptor,
        attachments: AttachmentSet,
        created: Option<(ChainHandle, Seq<ImageHandle>)>,
    ) -> Result<ChainView, Failure> {
        if !fits(request.format, pass) {
            Err(Failure::UnsupportedSurfaceFormat)
        } else {
            match created {
                None => Err(Failure::SurfaceLost),
                Some((handle, images)) => Ok(Self::assembled(pass, attachments, handle, images)),
            }
        }
    }
}

/// A chain made of what the platform created is well formed: it has one
/// framebuffer for each image, at the image's index and built from it, and
/// every framebuffer has the extent of the attachments.
pub proof fn assembled_is_aligned(
    pass: RenderPassDescriptor,
    attachments: AttachmentSet,
    handle: ChainHandle,
    images: Seq<ImageHandle>,
)
    ensures
        ChainView::assembled(pass, attachments, handle, images).wf(),
        ChainView::assembled(pass, attachments, handle, images).framebuffers.len() == images.len(),
        forall|i: int|
            0 <= i < images.len() ==> ({
                let framebuffer = #[trigger] ChainView::assembled(pass, attachments, handle, images).framebuffers[i];
                framebuffer.color == images[i] && framebuffer.extent == attachments.extent
            }),
{
}

/// The compatibility check depends on the chain's `optimal` flag and on its
/// extent, and on nothing else. As long as neither changes, and they change
/// only when the chain is rebuilt or the platform reports on it, the check
/// gives the same answer however often it is made.
pub proof fn compatibility_is_stable(earlier: ChainView, later: ChainView, extent: Extent)
    requires
        earlier.optimal == later.optimal,
        earlier.extent == later.extent,
    ensures
        earlier.compatible(extent) == later.compatible(extent),
{
}

/// The presentation chain.
pub struct PresentationChain {
    handle: ChainHandle,
    pass: RenderPassDescriptor,
    extent: Extent,
    images: Vec<ImageHandle>,
    attachments: AttachmentSet,
    framebuffers: Vec<Framebuffer>,
    optimal: bool,
}

impl View for PresentationChain {
    type V = ChainView;

    closed spec fn view(&self) -> ChainView {
        ChainView {
            handle: self.handle,
            pass: self.pass,
            extent: self.extent,
            images: self.images@,
            attachments: self.attachments,
            framebuffers: self.framebuffers@,
            optimal: self.optimal,
        }
    }
}

impl PresentationChain {
    #[verifier::type_invariant]
    closed spec fn aligned(self) -> bool {
        self@.wf()
    }

    /// Whether the chain can take the next frame of a surface that is
    /// `current_extent` large: it is still optimal and has that extent.
    pub fn is_compatible(&self, current_extent: Extent) -> (yes: bool)
        ensures
            yes == self@.compatible(current_extent),
            yes == (self@.optimal && self@.extent == current_extent),
    {
        self.optimal && self.extent == current_extent
    }

    /// Works out what to ask of a surface for a chain of `extent` that is drawn
    /// with `render_pass` and replaces `previous`.
    ///
    /// Fails with `UnsupportedSurfaceFormat` exactly when none of the pairs
    /// that the surface offers fits the render pass.
    pub fn negotiate(
        capabilities: &SurfaceCapabilities,
        extent: Extent,
        render_pass: &RenderPassDescriptor,
        previous: Option<&PresentationChain>,
    ) -> (request: Result<ChainRequest, Failure>)
        ensures
            request == (match negotiated(
                capabilities@,
                extent,
                *render_pass,
                match previous {
                    Some(chain) => Some(chain@.handle),
                    None => None,
                },
            ) {
                Some(request) => Ok::<ChainRequest, Failure>(request),
                None => Err::<ChainRequest, Failure>(Failure::UnsupportedSurfaceFormat),
            }),
    {
        let recycle = match previous {
            Some(chain) => Some(chain.handle),
            None => None,
        };
        let color_format = render_pass.color().format;
        let mut at: usize = 0;
        while at < capabilities.formats.len()
            invariant
                at <= capabilities.formats@.len(),
                color_format == render_pass.color_slot().format,
                recycle == match previous {
                    Some(chain) => Some(chain@.handle),
                    None => None,
                },
                forall|j: int| 0 <= j < at ==> !fits(#[trigger] capabilities.formats@[j], *render_pass),
            decreases capabilities.formats@.len() - at,
        {
            let pair: SurfaceFormat = capabilities.formats[at];
            if pair.is_presentable() && pair.format == color_format {
                proof {
                    let formats = capabilities.formats@;
                    assert(is_first_fit(formats, *render_pass, at as int));
                    let chosen = choose|i: int| is_first_fit(formats, *render_pass, i);
                    first_fit_is_unique(formats, *render_pass, chosen, at as int);
                    assert(fits(formats[at as int], *render_pass));
                    assert(offers_fit(formats, *render_pass));
                    assert(first_fit(formats, *render_pass) == pair);
                }
                return Ok(
                    ChainRequest {
                        extent,
                        image_count: capabilities.min_image_count,
                        format: pair,
                        present_mode: PresentMode::Fifo,
                        transform: capabilities.transform,
                        recycle,
                    },
                );
            }
            at += 1;
        }
        Err(Failure::UnsupportedSurfaceFormat)
    }

    /// Makes the chain out of what the platform created for `request`, and
    /// retires `previous`: it is taken over and cannot be reached afterwards.
    ///
    /// `created` is what the platform handed back, or nothing when it reported
    /// the surface lost. Each image is bound, together with the depth image of
    /// `attachment_set`, to `render_pass`; the framebuffers stand in the order
    /// of the images. The new chain is optimal.
    ///
    /// Fails with `UnsupportedSurfaceFormat` when the request's pair does not
    /// fit the render pass, else with `SurfaceLost` when nothing was created.
    pub fn rebuild(
        request: &ChainRequest,
        render_pass: &RenderPassDescriptor,
        attachment_set: AttachmentSet,
        created: Option<CreatedChain>,
        previous: Option<PresentationChain>,
    ) -> (chain: Result<PresentationChain, Failure>)
        requires
            attachment_set.extent == request.extent,
        ensures
            (match ChainView::rebuilt(
                *request,
                *render_pass,
                attachment_set,
                match created {
                    Some(created) => Some((created.handle, created.images@)),
                    None => None,
                },
            ) {
                Ok(rebuilt) => {
                    &&& chain is Ok
                    &&& (chain->Ok_0)@ == rebuilt
                    &&& rebuilt.wf()
                    &&& rebuilt.extent == request.extent
                    &&& rebuilt.optimal
                },
                Err(cause) => chain is Err && chain->Err_0 == cause,
            }),
    {
        let pair: SurfaceFormat = request.format;
        if !(pair.is_presentable() && pair.format == render_pass.color().format) {
            return Err(Failure::UnsupportedSurfaceFormat);
        }
        let created = match created {
            Some(created) => created,
            None => {
                return Err(Failure::SurfaceLost);
            },
        };
        let CreatedChain { handle, images } = created;
        let pass = *render_pass;
        let mut framebuffers: Vec<Framebuffer> = Vec::new();
        let mut at: usize = 0;
        while at < images.len()
            invariant
                at <= images@.len(),
                framebuffers@.len() == at,
                forall|i: int| 0 <= i < at ==> #[trigger] framebuffers@[i] == (Framebuffer {
                    pass,
                    color: images@[i],
                    depth: attachment_set.depth,
                    extent: attachment_set.extent,
                }),
            decreases images@.len() - at,
        {
            framebuffers.push(
                Framebuffer {
                    pass,
                    color: images[at],
                    depth: attachment_set.depth,
                    extent: attachment_set.extent,
                },
            );
            at += 1;
        }
        proof {
            let expected = ChainView::assembled(pass, attachment_set, handle, images@);
            assert(framebuffers@ =~= expected.framebuffers);
        }
        Ok(
            PresentationChain {
                handle,
                pass,
                extent: attachment_set.extent,
                images,
                attachments: attachment_set,
                framebuffers,
                optimal: true,
            },
        )
    }

    /// Notes that the platform called the chain suboptimal or out of date. The
    /// chain stays usable for the frame in flight and is incompatible with
    /// every extent from then on.
    pub fn invalidate(&mut self)
        ensures
            final(self)@ == old(self)@.stale(),
    {
        proof {
            use_type_invariant(&*self);
        }
        self.optimal = false;
    }

    /// The platform's name for the chain.
    pub fn handle(&self) -> (handle: ChainHandle)
        ensures
            handle == self@.handle,
    {
        self.handle
    }

    /// Size of the images.
    pub fn extent(&self) -> (extent: Extent)
        ensures
            extent == self@.extent,
    {
        self.extent
    }

    /// Whether the platform has not yet called the chain suboptimal or out of date.
    pub fn is_optimal(&self) -> (optimal: bool)
        ensures
            optimal == self@.optimal,
    {
        self.optimal
    }

    /// The attachments shared by all framebuffers.
    pub fn attachments(&self) -> (attachments: AttachmentSet)
        ensures
            attachments == self@.attachments,
            attachments.extent == self@.extent,
    {
        proof {
            use_type_invariant(self);
        }
        self.attachments
    }

    /// The presentable images, in the order of their indices.
    pub fn images(&self) -> (images: &Vec<ImageHandle>)
        ensures
            images@ == self@.images,
    {
        &self.images
    }

    /// The framebuffers: as many as there are images, the one at index `i`
    /// built from image `i`, each of the chain's extent.
    pub fn framebuffers(&self) -> (framebuffers: &Vec<Framebuffer>)
        ensures
            framebuffers@ == self@.framebuffers,
            self@.wf(),
            framebuffers@.len() == self@.images.len(),
            forall|i: int|
                0 <= i < framebuffers@.len() ==> (#[trigger] framebuffers@[i]).color == self@.images[i]
                    && framebuffers@[i].extent == self@.extent,
    {
        proof {
            use_type_invariant(self);
        }
        &self.framebuffers
    }

    /// The framebuffer for the image at `index`, or `None` when the chain has
    /// no such image.
    pub fn framebuffer(&self, index: u32) -> (framebuffer: Option<Framebuffer>)
        ensures
            self@.wf(),
            framebuffer == (if index < self@.images.len() {
                Some(self@.frame(index as int))
            } else {
                None
            }),
    {
        proof {
            use_type_invariant(self);
        }
        let at: usize = index as usize;
        if at < self.framebuffers.len() {
            Some(self.framebuffers[at])
        } else {
            None
        }
    }
}

} // verus!
