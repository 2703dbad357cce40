//! Events handed to the host after a step: frame completion and debug
//! signals.

use vstd::prelude::*;

verus! {

/// What a step observed: entry into VBlank (a frame is ready) and the
/// debug-only glitch signal for unspecified CPU states.
#[derive(Debug, Clone, Copy, PartialEq, Eq, Structural)]
pub struct Events {
    pub vblank: bool,
    pub breakpoint: bool,
}

impl Events {
    /// No event.
    pub fn new() -> (r: Events)
        ensures
            r == (Events { vblank: false, breakpoint: false }),
    {
        Events { vblank: false, breakpoint: false }
    }

    /// Whether nothing happened.
    pub fn is_empty(self) -> (r: bool)
        ensures
            r == (!self.vblank && !self.breakpoint),
    {
        !self.vblank && !self.breakpoint
    }
}

} // verus!
