//! The render pass that every frame is drawn with: one color attachment that
//! ends up on screen, one depth attachment, and a single subpass using both.

use vstd::prelude::*;
use crate::device::Device;
use crate::error::Failure;
use crate::format::Format;

verus! {

/// What happens to an attachment's contents when the render pass begins.
#[derive(Clone, Copy, Debug, PartialEq, Eq, Structural)]
pub enum LoadOp {
    Load,
    Clear,
    DontCare,
}

/// What happens to an attachment's contents when the render pass ends.
#[derive(Clone, Copy, Debug, PartialEq, Eq, Structural)]
pub enum StoreOp {
    Store,
    DontCare,
}

/// Arrangement of an image in memory, by what the image is used for.
#[derive(Clone, Copy, Debug, PartialEq, Eq, Structural)]
pub enum Layout {
    Undefined,
    ColorAttachmentOptimal,
    DepthStencilAttachmentOptimal,
    PresentSrc,
}

/// One attachment slot of a render pass.
#[derive(Clone, Copy, Debug, PartialEq, Eq, Structural)]
pub struct Attachment {
    pub format: Format,
    pub samples: u8,
    pub load: LoadOp,
    pub store: StoreOp,
    pub stencil_load: LoadOp,
    pub stencil_store: StoreOp,
    pub initial_layout: Layout,
    pub final_layout: Layout,
}

/// Use of an attachment slot by a subpass, with the layout the image is in
/// while the subpass runs.
#[derive(Clone, Copy, Debug, PartialEq, Eq, Structural)]
pub struct AttachmentRef {
    pub slot: u32,
    pub layout: Layout,
}

/// The only subpass of the render pass.
#[derive(Clone, Copy, Debug, PartialEq, Eq, Structural)]
pub struct Subpass {
    pub color: AttachmentRef,
    pub depth_stencil: AttachmentRef,
}

/// Slot of the color attachment.
pub const COLOR_SLOT: u32 = 0;

/// Slot of the depth attachment.
pub const DEPTH_SLOT: u32 = 1;

/// The color attachment for `format`: cleared when the pass begins, kept when
/// it ends, and left ready to be presented.
pub open spec fn color_attachment(format: Format) -> Attachment {
    Attachment {
        format,
        samples: 1,
        load: LoadOp::Clear,
        store: StoreOp::Store,
        stencil_load: LoadOp::DontCare,
        stencil_store: StoreOp::DontCare,
        initial_layout: Layout::Undefined,
        final_layout: Layout::PresentSrc,
    }
}

/// The depth attachment for `format`: cleared when the pass begins and thrown
/// away when it ends.
pub open spec fn depth_attachment(format: Format) -> Attachment {
    Attachment {
        format,
        samples: 1,
        load: LoadOp::Clear,
        store: StoreOp::DontCare,
        stencil_load: LoadOp::DontCare,
        stencil_store: StoreOp::DontCare,
        initial_layout: Layout::Undefined,
        final_layout: Layout::DepthStencilAttachmentOptimal,
    }
}

/// The subpass that draws a frame: it writes the color slot and tests against
/// the depth slot.
pub open spec fn frame_subpass() -> Subpass {
    Subpass {
        color: AttachmentRef { slot: COLOR_SLOT, layout: Layout::ColorAttachmentOptimal },
        depth_stencil: AttachmentRef { slot: DEPTH_SLOT, layout: Layout::DepthStencilAttachmentOptimal },
    }
}

/// Description of the render pass. It is fixed once built and lives as long as
/// the device it was built for.
#[derive(Clone, Copy, Debug, PartialEq, Eq, Structural)]
pub struct RenderPassDescriptor {
    color: Attachment,
    depth: Attachment,
    subpass: Subpass,
}

impl RenderPassDescriptor {
    /// The color attachment.
    pub closed spec fn color_slot(self) -> Attachment {
        self.color
    }

    /// The depth attachment.
    pub closed spec fn depth_slot(self) -> Attachment {
        self.depth
    }

    /// The subpass.
    pub closed spec fn pass(self) -> Subpass {
        self.subpass
    }

    /// The descriptor is the one that `build` gives for its two formats.
    pub open spec fn describes(self, color_format: Format, depth_format: Format) -> bool {
        &&& self.color_slot() == color_attachment(color_format)
        &&& self.depth_slot() == depth_attachment(depth_format)
        &&& self.pass() == frame_subpass()
    }

    /// Every descriptor is the one built for the formats of its two attachments.
    #[verifier::type_invariant]
    closed spec fn built(self) -> bool {
        self.describes(self.color.format, self.depth.format)
    }

    /// Describes the render pass for a color and a depth format.
    ///
    /// Fails with `UnsupportedFormat` exactly when the device cannot draw into
    /// `color_format` or cannot depth test with `depth_format`.
    pub fn build(device: &Device, color_format: Format, depth_format: Format) -> (built: Result<
        RenderPassDescriptor,
        Failure,
    >)
        ensures
            built is Ok <==> device.color_formats().contains(color_format) && device.depth_formats().contains(
                depth_format,
            ),
            built is Ok ==> (built->Ok_0).describes(color_format, depth_format),
            built is Err ==> built->Err_0 == Failure::UnsupportedFormat,
    {
        if !device.supports_color(color_format) || !device.supports_depth(depth_format) {
            return Err(Failure::UnsupportedFormat);
        }
        let color = Attachment {
            format: color_format,
            samples: 1,
            load: LoadOp::Clear,
            store: StoreOp::Store,
            stencil_load: LoadOp::DontCare,
            stencil_store: StoreOp::DontCare,
            initial_layout: Layout::Undefined,
            final_layout: Layout::PresentSrc,
        };
        let depth = Attachment {
            format: depth_format,
            samples: 1,
            load: LoadOp::Clear,
            store: StoreOp::DontCare,
            stencil_load: LoadOp::DontCare,
            stencil_store: StoreOp::DontCare,
            initial_layout: Layout::Undefined,
            final_layout: Layout::DepthStencilAttachmentOptimal,
        };
        let subpass = Subpass {
            color: AttachmentRef { slot: COLOR_SLOT, layout: Layout::ColorAttachmentOptimal },
            depth_stencil: AttachmentRef { slot: DEPTH_SLOT, layout: Layout::DepthStencilAttachmentOptimal },
        };
        Ok(RenderPassDescriptor { color, depth, subpass })
    }

    /// The color attachment.
    pub fn color(&self) -> (attachment: Attachment)
        ensures
            attachment == self.color_slot(),
            attachment == color_attachment(attachment.format),
    {
        proof {
            use_type_invariant(self);
        }
        self.color
    }

    /// The depth attachment.
    pub fn depth(&self) -> (attachment: Attachment)
        ensures
            attachment == self.depth_slot(),
            attachment == depth_attachment(attachment.format),
    {
        proof {
            use_type_invariant(self);
        }
        self.depth
    }

    /// The subpass.
    pub fn subpass(&self) -> (subpass: Subpass)
        ensures
            subpass == self.pass(),
            subpass == frame_subpass(),
    {
        proof {
            use_type_invariant(self);
        }
        self.subpass
    }
}

} // verus!
