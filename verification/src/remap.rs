//! The key remap: a press of a trigger key makes the substitute key be
//! pressed and released in the target.

use vstd::prelude::*;
use crate::focus::{spec_target_has_focus, target_has_focus};
use crate::keys::{KeyCode, KeyEvent, VK_F, VK_RETURN, VK_SPACE};
use crate::window::WindowHandle;

verus! {

/// How long a synthesized key is held down before it is released, in
/// milliseconds.
pub const KEY_HOLD_MILLIS: u64 = 10;

/// Which trigger keys are switched on.
#[derive(Clone, Copy, Debug, PartialEq, Eq, Structural)]
pub struct RemapFlags {
    /// Whether the F key is a trigger.
    pub f_enabled: bool,
    /// Whether the Enter key is a trigger.
    pub enter_enabled: bool,
    /// One more trigger key of the user's choice, if any.
    pub custom_trigger_key: Option<KeyCode>,
}

impl RemapFlags {
    /// `key` is a trigger key that is switched on.
    pub open spec fn spec_is_trigger(&self, key: KeyCode) -> bool {
        ||| self.f_enabled && key.code == VK_F
        ||| self.enter_enabled && key.code == VK_RETURN
        ||| self.custom_trigger_key == Some(key)
    }

    /// Tells whether `key` is a trigger key that is switched on.
    #[verifier::when_used_as_spec(spec_is_trigger)]
    pub fn is_trigger(&self, key: KeyCode) -> (trigger: bool)
        ensures
            trigger == self.spec_is_trigger(key),
    {
        if self.f_enabled && key.code == VK_F {
            return true;
        }
        if self.enter_enabled && key.code == VK_RETURN {
            return true;
        }
        match self.custom_trigger_key {
            Some(custom) => custom.code == key.code,
            None => false,
        }
    }
}

/// One step of synthesizing input.
#[derive(Clone, Copy, Debug, PartialEq, Eq, Structural)]
pub enum SynthStep {
    /// Send the key going down.
    Press(KeyCode),
    /// Let this many milliseconds pass.
    Wait { millis: u64 },
    /// Send the key coming up.
    Release(KeyCode),
}

/// The key that is sent in place of a trigger key.
pub open spec fn substitute_key() -> KeyCode {
    KeyCode { code: VK_SPACE }
}

/// One stroke of `key`: down, held for a moment, up.
pub open spec fn spec_key_stroke(key: KeyCode) -> Seq<SynthStep> {
    seq![SynthStep::Press(key), SynthStep::Wait { millis: KEY_HOLD_MILLIS }, SynthStep::Release(key)]
}

/// What to synthesize in answer to `event`: one stroke of the substitute key
/// if the event is the press of a trigger key that is switched on and the
/// target has the focus, nothing otherwise.
pub open spec fn spec_remap(
    event: KeyEvent,
    flags: RemapFlags,
    target: Option<WindowHandle>,
    foreground: Option<WindowHandle>,
) -> Seq<SynthStep> {
    match event {
        KeyEvent::Press(key) => if flags.spec_is_trigger(key) && spec_target_has_focus(
            target,
            foreground,
        ) {
            spec_key_stroke(substitute_key())
        } else {
            Seq::<SynthStep>::empty()
        },
        KeyEvent::Release(_) => Seq::<SynthStep>::empty(),
    }
}

/// How many of `steps` send a key going down.
pub open spec fn count_presses(steps: Seq<SynthStep>) -> nat
    decreases steps.len(),
{
    if steps.len() == 0 {
        0
    } else {
        count_presses(steps.drop_last()) + if steps.last() is Press {
            1nat
        } else {
            0nat
        }
    }
}

/// How many of `steps` send a key coming up.
pub open spec fn count_releases(steps: Seq<SynthStep>) -> nat
    decreases steps.len(),
{
    if steps.len() == 0 {
        0
    } else {
        count_releases(steps.drop_last()) + if steps.last() is Release {
            1nat
        } else {
            0nat
        }
    }
}

/// Somewhere in `steps` the key goes down, and somewhere later it comes up.
pub open spec fn releases_after_press(steps: Seq<SynthStep>, key: KeyCode) -> bool {
    exists|i: int, j: int|
        0 <= i < j < steps.len() && #[trigger] steps[i] == SynthStep::Press(key)
            && #[trigger] steps[j] == SynthStep::Release(key)
}

/// The steps that press `key` once: down, a short wait, up.
pub fn key_stroke(key: KeyCode) -> (steps: Vec<SynthStep>)
    ensures
        steps@ == spec_key_stroke(key),
{
    let mut steps: Vec<SynthStep> = Vec::new();
    steps.push(SynthStep::Press(key));
    steps.push(SynthStep::Wait { millis: KEY_HOLD_MILLIS });
    steps.push(SynthStep::Release(key));
    assert(steps@ =~= spec_key_stroke(key));
    steps
}

/// Handles one event of the keyboard hook and returns the input to
/// synthesize, in order.
///
/// The press of a trigger key that is switched on, made while the target has
/// the focus, is answered by one stroke of the space bar. Every other event
/// is left alone: the result is empty.
pub fn remap(
    event: KeyEvent,
    flags: &RemapFlags,
    target: Option<WindowHandle>,
    foreground: Option<WindowHandle>,
) -> (steps: Vec<SynthStep>)
    ensures
        steps@ == spec_remap(event, *flags, target, foreground),
{
    match event {
        KeyEvent::Press(key) => {
            if flags.is_trigger(key) && target_has_focus(target, foreground) {
                key_stroke(KeyCode { code: VK_SPACE })
            } else {
                Vec::new()
            }
        },
        KeyEvent::Release(_) => Vec::new(),
    }
}

/// One stroke holds exactly one press and one release, both of the same key,
/// and the release comes strictly after the press.
pub proof fn lemma_key_stroke_presses_then_releases(key: KeyCode)
    ensures
        count_presses(spec_key_stroke(key)) == 1,
        count_releases(spec_key_stroke(key)) == 1,
        releases_after_press(spec_key_stroke(key), key),
{
    let steps = spec_key_stroke(key);
    let two = seq![SynthStep::Press(key), SynthStep::Wait { millis: KEY_HOLD_MILLIS }];
    let one = seq![SynthStep::Press(key)];
    assert(steps.drop_last() =~= two);
    assert(two.drop_last() =~= one);
    assert(one.drop_last() =~= Seq::<SynthStep>::empty());
    reveal_with_fuel(count_presses, 4);
    reveal_with_fuel(count_releases, 4);
    assert(steps[0] == SynthStep::Press(key) && steps[2] == SynthStep::Release(key));
}

/// While a key is not switched on as a trigger, its press synthesizes
/// nothing, wherever the focus is.
pub proof fn lemma_disabled_trigger_sends_nothing(
    key: KeyCode,
    flags: RemapFlags,
    target: Option<WindowHandle>,
    foreground: Option<WindowHandle>,
)
    requires
        !flags.spec_is_trigger(key),
    ensures
        spec_remap(KeyEvent::Press(key), flags, target, foreground).len() == 0,
{
}

/// The press of a trigger key that is switched on, made while the target has
/// the focus, synthesizes exactly one press and one release of the substitute
/// key, the release strictly after the press.
pub proof fn lemma_enabled_trigger_sends_one_stroke(
    key: KeyCode,
    flags: RemapFlags,
    target: Option<WindowHandle>,
    foreground: Option<WindowHandle>,
)
    requires
        flags.spec_is_trigger(key),
        spec_target_has_focus(target, foreground),
    ensures
        spec_remap(KeyEvent::Press(key), flags, target, foreground) == spec_key_stroke(
            substitute_key(),
        ),
        count_presses(spec_remap(KeyEvent::Press(key), flags, target, foreground)) == 1,
        count_releases(spec_remap(KeyEvent::Press(key), flags, target, foreground)) == 1,
        releases_after_press(
            spec_remap(KeyEvent::Press(key), flags, target, foreground),
            substitute_key(),
        ),
{
    lemma_key_stroke_presses_then_releases(substitute_key());
}

/// Without the focus on the target no event synthesizes anything, and the
/// release of a key never does.
pub proof fn lemma_remap_needs_focus_and_press(
    event: KeyEvent,
    flags: RemapFlags,
    target: Option<WindowHandle>,
    foreground: Option<WindowHandle>,
)
    requires
        !spec_target_has_focus(target, foreground) || event is Release,
    ensures
        spec_remap(event, flags, target, foreground).len() == 0,
{
}

} // verus!
