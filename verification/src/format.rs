//! Pixel formats, color spaces and the rule by which the engine picks the pair
//! it presents in.

use vstd::prelude::*;

verus! {

/// Pixel format of an image.
#[derive(Clone, Copy, Debug, PartialEq, Eq, Structural)]
pub enum Format {
    R8G8B8A8Unorm,
    R8G8B8A8Srgb,
    B8G8R8A8Unorm,
    B8G8R8A8Srgb,
    A2B10G10R10Unorm,
    R16G16B16A16Sfloat,
    D16Unorm,
    D24UnormS8Uint,
    D32Sfloat,
    D32SfloatS8Uint,
}

impl Format {
    /// Formats with eight bits per channel whose color channels are sRGB encoded.
    pub open spec fn srgb8(self) -> bool {
        self == Format::R8G8B8A8Srgb || self == Format::B8G8R8A8Srgb
    }

    /// Whether the format has eight bits per channel and is sRGB encoded.
    pub fn is_srgb8(&self) -> (yes: bool)
        ensures
            yes == self.srgb8(),
    {
        match self {
            Format::R8G8B8A8Srgb | Format::B8G8R8A8Srgb => true,
            _ => false,
        }
    }
}

/// Color space in which a surface interprets the pixels it is given.
#[derive(Clone, Copy, Debug, PartialEq, Eq, Structural)]
pub enum ColorSpace {
    SrgbNonLinear,
    ExtendedSrgbLinear,
    DisplayP3NonLinear,
    DisplayP3Linear,
    Bt709Linear,
    Bt709NonLinear,
    Bt2020Linear,
}

impl ColorSpace {
    /// Color spaces with a linear transfer function.
    pub open spec fn linear(self) -> bool {
        self == ColorSpace::ExtendedSrgbLinear || self == ColorSpace::DisplayP3Linear
            || self == ColorSpace::Bt709Linear || self == ColorSpace::Bt2020Linear
    }

    /// Whether the color space has a linear transfer function.
    pub fn is_linear(&self) -> (yes: bool)
        ensures
            yes == self.linear(),
    {
        match self {
            ColorSpace::ExtendedSrgbLinear | ColorSpace::DisplayP3Linear | ColorSpace::Bt709Linear
            | ColorSpace::Bt2020Linear => true,
            _ => false,
        }
    }
}

/// A format together with the color space that a surface shows it in.
#[derive(Clone, Copy, Debug, PartialEq, Eq, Structural)]
pub struct SurfaceFormat {
    pub format: Format,
    pub color_space: ColorSpace,
}

impl SurfaceFormat {
    /// The pairs that the engine presents in: an sRGB encoded format with eight
    /// bits per channel, shown in a linear color space.
    pub open spec fn presentable(self) -> bool {
        self.format.srgb8() && self.color_space.linear()
    }

    /// Whether the engine can present in this pair.
    pub fn is_presentable(&self) -> (yes: bool)
        ensures
            yes == self.presentable(),
    {
        self.format.is_srgb8() && self.color_space.is_linear()
    }
}

/// Order in which a surface takes presented images to the screen.
#[derive(Clone, Copy, Debug, PartialEq, Eq, Structural)]
pub enum PresentMode {
    Immediate,
    Mailbox,
    /// Images are shown in the order they were presented, one per refresh.
    /// Every conformant device offers this mode.
    Fifo,
    FifoRelaxed,
}

/// Rotation that the surface applies to presented images.
#[derive(Clone, Copy, Debug, PartialEq, Eq, Structural)]
pub enum Transform {
    Identity,
    Rotate90,
    Rotate180,
    Rotate270,
}

/// `i` is the position of a presentable pair and no earlier pair is presentable.
pub open spec fn is_first_presentable(formats: Seq<SurfaceFormat>, i: int) -> bool {
    &&& 0 <= i < formats.len()
    &&& formats[i].presentable()
    &&& forall|j: int| 0 <= j < i ==> !(#[trigger] formats[j]).presentable()
}

/// Picks the pair to present in: the first one offered that is sRGB encoded
/// with eight bits per channel and shown in a linear color space.
///
/// The result is `None` exactly when the surface offers no such pair.
pub fn select_surface_format(formats: &Vec<SurfaceFormat>) -> (picked: Option<SurfaceFormat>)
    ensures
        picked is None <==> forall|i: int| 0 <= i < formats@.len() ==> !(#[trigger] formats@[i]).presentable(),
        picked is Some ==> exists|i: int| is_first_presentable(formats@, i) && formats@[i] == picked->0,
{
    let mut at: usize = 0;
    while at < formats.len()
        invariant
            at <= formats@.len(),
            forall|j: int| 0 <= j < at ==> !(#[trigger] formats@[j]).presentable(),
        decreases formats@.len() - at,
    {
        let candidate: SurfaceFormat = formats[at];
        if candidate.is_presentable() {
            assert(is_first_presentable(formats@, at as int));
            return Some(candidate);
        }
        at += 1;
    }
    None
}

} // verus!
