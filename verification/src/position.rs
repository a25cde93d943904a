//! Keeps the overlay where the target is.

use vstd::prelude::*;
use crate::command::Command;
use crate::geometry::{overlay_placement, spec_overlay_placement, Rect};
use crate::window::WindowHandle;

verus! {

/// The move that brings `overlay` over a target at `target_rect`, unless the
/// rectangle last applied, `previous_rect`, was the same one.
pub open spec fn sync_command(target_rect: Rect, previous_rect: Rect, overlay: WindowHandle)
    -> Option<Command> {
    if target_rect == previous_rect {
        None
    } else {
        Some(Command::MoveResize { window: overlay, placement: spec_overlay_placement(target_rect) })
    }
}

/// What a position sync yields: the move to make, if any, and the rectangle
/// to compare with next time, which is the target's.
pub open spec fn spec_sync_position(target_rect: Rect, previous_rect: Rect, overlay: WindowHandle)
    -> (Option<Command>, Rect) {
    (sync_command(target_rect, previous_rect, overlay), target_rect)
}

/// Decides whether the overlay has to move.
///
/// Returns the move to make, if any, and the rectangle to remember for the
/// next comparison. While the target stays where it was, no move is made.
pub fn sync_position(target_rect: Rect, previous_rect: Rect, overlay: WindowHandle) -> (out: (
    Option<Command>,
    Rect,
))
    ensures
        out == spec_sync_position(target_rect, previous_rect, overlay),
        out.0 is None <==> target_rect == previous_rect,
        out.1 == target_rect,
{
    if target_rect == previous_rect {
        (None, previous_rect)
    } else {
        let placement = overlay_placement(target_rect);
        (Some(Command::MoveResize { window: overlay, placement }), target_rect)
    }
}

/// 1 if a command was issued, 0 if not.
pub open spec fn issued(command: Option<Command>) -> nat {
    if command is Some {
        1
    } else {
        0
    }
}

/// Synchronizing twice in a row on the same target rectangle moves the
/// overlay at most once: the second sync, made with what the first one
/// remembered, issues no move and remembers the same rectangle.
pub proof fn lemma_sync_position_idempotent(
    target_rect: Rect,
    previous_rect: Rect,
    overlay: WindowHandle,
)
    ensures
        ({
            let first = spec_sync_position(target_rect, previous_rect, overlay);
            let second = spec_sync_position(target_rect, first.1, overlay);
            &&& second.0 is None
            &&& second.1 == first.1
            &&& issued(first.0) + issued(second.0) <= 1
        }),
{
}

} // verus!
