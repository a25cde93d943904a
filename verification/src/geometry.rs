//! Screen rectangles and where the overlay is placed over the target.

use vstd::prelude::*;

verus! {

/// How far the overlay's left edge lies to the right of the target's.
pub const INSET_LEFT: i64 = 8;

/// How far the overlay's top edge lies below the target's: the height of
/// the target's title bar.
pub const INSET_TOP: i64 = 31;

/// How much narrower than the target the overlay is.
pub const INSET_WIDTH: i64 = 16;

/// How much lower than the target the overlay is.
pub const INSET_HEIGHT: i64 = 39;

/// Bounding box of a window in screen pixels, as the platform reports it.
#[derive(Clone, Copy, Debug, PartialEq, Eq, Structural)]
pub struct Rect {
    pub left: i32,
    pub top: i32,
    pub right: i32,
    pub bottom: i32,
}

impl Rect {
    /// The rectangle with all four edges at the origin.
    pub open spec fn zero() -> Rect {
        Rect { left: 0, top: 0, right: 0, bottom: 0 }
    }
}

impl Default for Rect {
    fn default() -> (rect: Rect)
        ensures
            rect == Rect::zero(),
    {
        Rect { left: 0, top: 0, right: 0, bottom: 0 }
    }
}

/// Position and size to give a window. The fields are wide enough for every
/// placement that can be derived from a `Rect`.
#[derive(Clone, Copy, Debug, PartialEq, Eq, Structural)]
pub struct Placement {
    pub x: i64,
    pub y: i64,
    pub width: i64,
    pub height: i64,
}

/// The placement that covers the target's client area: the target's box with
/// its decorations cut away.
pub open spec fn spec_overlay_placement(target_rect: Rect) -> Placement {
    Placement {
        x: (target_rect.left + INSET_LEFT) as i64,
        y: (target_rect.top + INSET_TOP) as i64,
        width: (target_rect.right - target_rect.left - INSET_WIDTH) as i64,
        height: (target_rect.bottom - target_rect.top - INSET_HEIGHT) as i64,
    }
}

/// Computes where the overlay goes when the target occupies `target_rect`.
///
/// No clamping is applied: a target smaller than its own decorations gives a
/// negative width or height.
pub fn overlay_placement(target_rect: Rect) -> (placement: Placement)
    ensures
        placement == spec_overlay_placement(target_rect),
        placement.x == target_rect.left + 8,
        placement.y == target_rect.top + 31,
        placement.width == target_rect.right - target_rect.left - 16,
        placement.height == target_rect.bottom - target_rect.top - 39,
{
    let left: i64 = target_rect.left as i64;
    let top: i64 = target_rect.top as i64;
    let right: i64 = target_rect.right as i64;
    let bottom: i64 = target_rect.bottom as i64;
    Placement {
        x: left + INSET_LEFT,
        y: top + INSET_TOP,
        width: right - left - INSET_WIDTH,
        height: bottom - top - INSET_HEIGHT,
    }
}

} // verus!
