//! Pixel extents of drawable areas.

use vstd::prelude::*;

verus! {

/// Size of a drawable area in pixels.
#[derive(Clone, Copy, Debug, PartialEq, Eq, Structural)]
pub struct Extent {
    pub width: u32,
    pub height: u32,
}

impl Extent {
    pub fn new(width: u32, height: u32) -> (extent: Extent)
        ensures
            extent == (Extent { width, height }),
    {
        Extent { width, height }
    }
}

} // verus!
