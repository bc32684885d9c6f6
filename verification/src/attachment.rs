//! The images of a frame that do not come from the presentation chain.

use vstd::prelude::*;
use crate::error::Failure;
use crate::extent::Extent;
use crate::format::Format;

verus! {

/// Name that the platform gave to an image.
#[derive(Clone, Copy, Debug, PartialEq, Eq, Structural)]
pub struct ImageHandle {
    pub id: u64,
}

/// The depth image that the frames of one presentation chain are drawn with.
/// It has the size of the surface it was built for; when that size changes, a
/// new set is built in its place.
#[derive(Clone, Copy, Debug, PartialEq, Eq, Structural)]
pub struct AttachmentSet {
    pub extent: Extent,
    pub format: Format,
    pub depth: ImageHandle,
}

impl AttachmentSet {
    /// Takes what the device answered when asked for a depth image of `extent`
    /// and `depth_format`: the image, or nothing when it had no memory left.
    ///
    /// Fails with `OutOfDeviceMemory` exactly when there is no image.
    pub fn build(extent: Extent, depth_format: Format, allocated: Option<ImageHandle>) -> (built: Result<
        AttachmentSet,
        Failure,
    >)
        ensures
            built == (match allocated {
                Some(image) => Ok::<AttachmentSet, Failure>(
                    AttachmentSet { extent, format: depth_format, depth: image },
                ),
                None => Err::<AttachmentSet, Failure>(Failure::OutOfDeviceMemory),
            }),
    {
        match allocated {
            Some(image) => Ok(AttachmentSet { extent, format: depth_format, depth: image }),
            None => Err(Failure::OutOfDeviceMemory),
        }
    }
}

} // verus!
