//! Who has the input focus, and whether the overlay may be seen.

use vstd::prelude::*;
use crate::window::WindowHandle;

verus! {

/// The target exists and is the foreground window.
pub open spec fn spec_target_has_focus(
    target: Option<WindowHandle>,
    foreground: Option<WindowHandle>,
) -> bool {
    target is Some && foreground == target
}

/// The target exists and the foreground window is the target or the overlay.
pub open spec fn spec_has_focus(
    target: Option<WindowHandle>,
    overlay: WindowHandle,
    foreground: Option<WindowHandle>,
) -> bool {
    target is Some && (foreground == target || foreground == Some(overlay))
}

/// The overlay is to be seen: the target or the overlay has the focus and the
/// user has not asked to hide the overlay.
pub open spec fn spec_should_be_visible(
    target: Option<WindowHandle>,
    overlay: WindowHandle,
    foreground: Option<WindowHandle>,
    user_hidden: bool,
) -> bool {
    spec_has_focus(target, overlay, foreground) && !user_hidden
}

/// Tells whether `foreground` is the window `window`.
fn is_window(foreground: Option<WindowHandle>, window: WindowHandle) -> (same: bool)
    ensures
        same == (foreground == Some(window)),
{
    match foreground {
        Some(handle) => handle == window,
        None => false,
    }
}

/// Tells whether the target window is the one the user is working in.
///
/// `target` is `None` while the target is not running; `foreground` is `None`
/// while no window has the focus.
#[verifier::when_used_as_spec(spec_target_has_focus)]
pub fn target_has_focus(target: Option<WindowHandle>, foreground: Option<WindowHandle>) -> (focus:
    bool)
    ensures
        focus == spec_target_has_focus(target, foreground),
        target is None ==> !focus,
{
    match target {
        Some(window) => is_window(foreground, window),
        None => false,
    }
}

/// Tells whether the user is working in the target or in the overlay.
#[verifier::when_used_as_spec(spec_has_focus)]
pub fn has_focus(
    target: Option<WindowHandle>,
    overlay: WindowHandle,
    foreground: Option<WindowHandle>,
) -> (focus: bool)
    ensures
        focus == spec_has_focus(target, overlay, foreground),
        target is None ==> !focus,
{
    match target {
        Some(window) => is_window(foreground, window) || is_window(foreground, overlay),
        None => false,
    }
}

/// Decides whether the overlay is to be seen.
///
/// It is, exactly when the target was found, the foreground window is the
/// target or the overlay, and the user has not hidden the overlay. The answer
/// depends on the four arguments and on nothing else.
#[verifier::when_used_as_spec(spec_should_be_visible)]
pub fn should_be_visible(
    target: Option<WindowHandle>,
    overlay: WindowHandle,
    foreground: Option<WindowHandle>,
    user_hidden: bool,
) -> (visible: bool)
    ensures
        visible == spec_should_be_visible(target, overlay, foreground, user_hidden),
        visible <==> target is Some && (foreground == target || foreground == Some(overlay))
            && !user_hidden,
        user_hidden ==> !visible,
        target is None ==> !visible,
{
    !user_hidden && has_focus(target, overlay, foreground)
}

} // verus!
