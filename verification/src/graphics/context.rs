//! The EGL context.

use vstd::prelude::*;

verus! {

/// An EGL context together with the display and the configuration it was
/// created for. Each is kept as the address under which EGL knows it.
#[derive(Clone, Copy, Debug, PartialEq, Eq, Structural)]
pub struct Context {
    pub display: usize,
    pub config: usize,
    pub handle: usize,
}

impl Context {
    pub fn new(display: usize, config: usize, handle: usize) -> (context: Context)
        ensures
            context == (Context { display, config, handle }),
    {
        Context { display, config, handle }
    }
}

} // verus!
