//! The global hotkey that hides the overlay and brings it back.

use vstd::prelude::*;
use crate::focus::{has_focus, spec_has_focus};
use crate::window::WindowHandle;

verus! {

/// How long the hotkey listener sleeps between two looks at its event queue,
/// in milliseconds.
pub const HOTKEY_POLL_MILLIS: u64 = 10;

/// What happened to the hotkey.
#[derive(Clone, Copy, Debug, PartialEq, Eq, Structural)]
pub enum HotkeyState {
    /// The key combination went down.
    Pressed,
    /// The key combination came up.
    Released,
}

/// The user's hide flag after a hotkey event: flipped by a press made while
/// the target or the overlay has the focus, unchanged otherwise.
pub open spec fn spec_on_hotkey(
    state: HotkeyState,
    target: Option<WindowHandle>,
    overlay: WindowHandle,
    foreground: Option<WindowHandle>,
    user_hidden: bool,
) -> bool {
    if state is Pressed && spec_has_focus(target, overlay, foreground) {
        !user_hidden
    } else {
        user_hidden
    }
}

/// Handles one hotkey event and returns the new value of the user's hide
/// flag.
///
/// Only a press counts, so that one stroke of the hotkey flips the flag once.
/// A press made while another application has the focus is ignored: the
/// hotkey is registered system-wide and must not act on behalf of others.
pub fn on_hotkey(
    state: HotkeyState,
    target: Option<WindowHandle>,
    overlay: WindowHandle,
    foreground: Option<WindowHandle>,
    user_hidden: bool,
) -> (next: bool)
    ensures
        next == spec_on_hotkey(state, target, overlay, foreground, user_hidden),
        state is Released ==> next == user_hidden,
        next != user_hidden <==> state is Pressed && spec_has_focus(target, overlay, foreground),
{
    match state {
        HotkeyState::Released => user_hidden,
        HotkeyState::Pressed => {
            if has_focus(target, overlay, foreground) {
                !user_hidden
            } else {
                user_hidden
            }
        },
    }
}

} // verus!
