//! What the engine has to know of a device: the formats it can attach to a
//! render pass, and the queue families that serve the three queue roles.

use vstd::prelude::*;
use crate::format::Format;

verus! {

/// Formats that a device accepts as attachments of a render pass.
pub struct Device {
    color_formats: Vec<Format>,
    depth_formats: Vec<Format>,
}

impl Device {
    /// The formats usable as a color attachment.
    pub closed spec fn color_formats(&self) -> Seq<Format> {
        self.color_formats@
    }

    /// The formats usable as a depth attachment.
    pub closed spec fn depth_formats(&self) -> Seq<Format> {
        self.depth_formats@
    }

    pub fn new(color_formats: Vec<Format>, depth_formats: Vec<Format>) -> (device: Device)
        ensures
            device.color_formats() == color_formats@,
            device.depth_formats() == depth_formats@,
    {
        Device { color_formats, depth_formats }
    }

    /// Whether the device can draw into images of `format`.
    pub fn supports_color(&self, format: Format) -> (yes: bool)
        ensures
            yes == self.color_formats().contains(format),
    {
        holds(&self.color_formats, format)
    }

    /// Whether the device can use images of `format` for depth testing.
    pub fn supports_depth(&self, format: Format) -> (yes: bool)
        ensures
            yes == self.depth_formats().contains(format),
    {
        holds(&self.depth_formats, format)
    }
}

fn holds(formats: &Vec<Format>, format: Format) -> (found: bool)
    ensures
        found == formats@.contains(format),
{
    let mut at: usize = 0;
    while at < formats.len()
        invariant
            at <= formats@.len(),
            forall|j: int| 0 <= j < at ==> formats@[j] != format,
        decreases formats@.len() - at,
    {
        if formats[at] == format {
            return true;
        }
        at += 1;
    }
    false
}

/// The three roles in which the engine uses a queue.
#[derive(Clone, Copy, Debug, PartialEq, Eq, Structural)]
pub enum QueueType {
    /// Takes the draw submissions.
    Graphics,
    /// Hands images over to the display.
    Presentation,
    /// Takes resource uploads.
    Transfer,
}

/// What a queue family of the device can do. `presentation` says whether the
/// family can present to the surface in use.
#[derive(Clone, Copy, Debug, PartialEq, Eq, Structural)]
pub struct QueueFamily {
    pub graphics: bool,
    pub transfer: bool,
    pub presentation: bool,
}

impl QueueFamily {
    /// Whether a queue of this family can take the role `ty`.
    pub open spec fn serves(self, ty: QueueType) -> bool {
        match ty {
            QueueType::Graphics => self.graphics,
            QueueType::Presentation => self.presentation,
            QueueType::Transfer => self.transfer,
        }
    }

    /// Whether a queue of this family can take the role `ty`.
    pub fn supports(&self, ty: QueueType) -> (yes: bool)
        ensures
            yes == self.serves(ty),
    {
        match ty {
            QueueType::Graphics => self.graphics,
            QueueType::Presentation => self.presentation,
            QueueType::Transfer => self.transfer,
        }
    }
}

/// Some family of `families` serves `ty`.
pub open spec fn has_family(families: Seq<QueueFamily>, ty: QueueType) -> bool {
    exists|j: int| 0 <= j < families.len() && (#[trigger] families[j]).serves(ty)
}

/// `index` is the position of the first family that serves `ty`.
pub open spec fn is_first_family(families: Seq<QueueFamily>, ty: QueueType, index: int) -> bool {
    &&& 0 <= index < families.len()
    &&& families[index].serves(ty)
    &&& forall|j: int| 0 <= j < index ==> !(#[trigger] families[j]).serves(ty)
}

/// Index of the first queue family that can take the role `ty`, or `None`
/// when no family can.
pub fn get_queue_family(families: &Vec<QueueFamily>, ty: QueueType) -> (found: Option<usize>)
    ensures
        found is Some <==> has_family(families@, ty),
        found is Some ==> is_first_family(families@, ty, found->0 as int),
{
    let mut at: usize = 0;
    while at < families.len()
        invariant
            at <= families@.len(),
            forall|j: int| 0 <= j < at ==> !(#[trigger] families@[j]).serves(ty),
        decreases families@.len() - at,
    {
        if families[at].supports(ty) {
            return Some(at);
        }
        at += 1;
    }
    None
}

/// The queue family behind each of the three roles. One family may stand
/// behind several roles.
#[derive(Clone, Copy, Debug, PartialEq, Eq, Structural)]
pub struct Queues {
    pub transfer: usize,
    pub graphics: usize,
    pub presentation: usize,
}

impl Queues {
    /// Gives each role the first family that serves it. The result is `None`
    /// exactly when some role has no family.
    pub fn select(families: &Vec<QueueFamily>) -> (queues: Option<Queues>)
        ensures
            queues is Some <==> has_family(families@, QueueType::Transfer) && has_family(
                families@,
                QueueType::Graphics,
            ) && has_family(families@, QueueType::Presentation),
            queues is Some ==> ({
                &&& is_first_family(families@, QueueType::Transfer, (queues->0).transfer as int)
                &&& is_first_family(families@, QueueType::Graphics, (queues->0).graphics as int)
                &&& is_first_family(families@, QueueType::Presentation, (queues->0).presentation as int)
            }),
    {
        let transfer = get_queue_family(families, QueueType::Transfer);
        let graphics = get_queue_family(families, QueueType::Graphics);
        let presentation = get_queue_family(families, QueueType::Presentation);
        match (transfer, graphics, presentation) {
            (Some(transfer), Some(graphics), Some(presentation)) => Some(
                Queues { transfer, graphics, presentation },
            ),
            _ => None,
        }
    }
}

} // verus!
