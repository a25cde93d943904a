//! Window handles and screen rectangles.

use vstd::prelude::*;

verus! {

/// Identifier of a platform window.
///
/// A handle is never null: a lookup that finds no window yields `None`
/// instead of a handle.
#[derive(Clone, Copy, Debug, PartialEq, Eq, Structural)]
pub struct WindowHandle {
    raw: isize,
}

impl View for WindowHandle {
    type V = int;

    /// The platform's number for the window.
    closed spec fn view(&self) -> int {
        self.raw as int
    }
}

impl WindowHandle {
    #[verifier::type_invariant]
    spec fn non_null(self) -> bool {
        self.raw != 0
    }

    /// What `from_raw` returns for the platform value `raw`.
    pub closed spec fn spec_from_raw(raw: isize) -> Option<WindowHandle> {
        if raw == 0 {
            None
        } else {
            Some(WindowHandle { raw })
        }
    }

    /// Two handles are the same window exactly when their numbers agree.
    pub proof fn lemma_view_injective(a: WindowHandle, b: WindowHandle)
        ensures
            a@ == b@ <==> a == b,
    {
    }

    /// Reads a handle out of the value a window lookup returned. The null
    /// value, which the platform returns when it finds no window, is `None`.
    pub fn from_raw(raw: isize) -> (handle: Option<WindowHandle>)
        ensures
            handle == Self::spec_from_raw(raw),
            handle is None <==> raw == 0,
            handle matches Some(h) ==> h@ == raw,
    {
        if raw == 0 {
            None
        } else {
            Some(WindowHandle { raw })
        }
    }

    /// The platform's number for the window, to hand back to the platform.
    pub fn raw(&self) -> (raw: isize)
        ensures
            raw == self@,
            raw != 0,
    {
        proof {
            use_type_invariant(self);
        }
        self.raw
    }
}

/// Holds the overlay's own window handle, which is found once, the first time
/// a window of this process is active, and never changes afterwards.
#[derive(Clone, Copy, Debug)]
pub struct OverlaySlot {
    handle: Option<WindowHandle>,
}

impl View for OverlaySlot {
    type V = Option<WindowHandle>;

    /// The handle held, if one was found yet.
    closed spec fn view(&self) -> Option<WindowHandle> {
        self.handle
    }
}

impl OverlaySlot {
    /// A slot that holds no handle yet.
    pub fn new() -> (slot: OverlaySlot)
        ensures
            slot@ is None,
    {
        OverlaySlot { handle: None }
    }

    /// The overlay's handle, if it was found yet.
    pub fn get(&self) -> (handle: Option<WindowHandle>)
        ensures
            handle == self@,
    {
        self.handle
    }

    /// Takes `active`, the window of this process that is active now, as the
    /// overlay's handle, unless the slot holds one already.
    ///
    /// Returns `true` exactly when the handle was set by this call. With no
    /// active window the slot stays empty, and the caller tries again on the
    /// next frame.
    pub fn resolve_once(&mut self, active: Option<WindowHandle>) -> (fresh: bool)
        ensures
            old(self)@ is Some ==> final(self)@ == old(self)@,
            old(self)@ is None ==> final(self)@ == active,
            fresh == (old(self)@ is None && active is Some),
    {
        if self.handle.is_none() && active.is_some() {
            self.handle = active;
            true
        } else {
            false
        }
    }
}

} // verus!
