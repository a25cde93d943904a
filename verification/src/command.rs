//! What the tracking loop asks the platform to do.

use vstd::prelude::*;
use crate::geometry::Placement;
use crate::window::WindowHandle;

verus! {

/// One request to the platform's window manager. The library only decides
/// which requests to make and in which order; the caller carries them out.
#[derive(Clone, Copy, Debug, PartialEq, Eq, Structural)]
pub enum Command {
    /// Make `window` invisible.
    Hide { window: WindowHandle },
    /// Make `window` visible.
    Show { window: WindowHandle },
    /// Move and resize `window`, keeping it above all other windows.
    MoveResize { window: WindowHandle, placement: Placement },
    /// Give `window` the input focus.
    Focus { window: WindowHandle },
}

} // verus!
