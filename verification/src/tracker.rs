//! The tracking loop's state machine: one step per tick.
//!
//! The caller owns the loop. Each tick it looks at the windows, hands what it
//! saw to `Tracker::tick`, and carries out the commands that come back, in
//! order.

use vstd::prelude::*;
use crate::command::Command;
use crate::focus::{should_be_visible, spec_should_be_visible};
use crate::geometry::Rect;
use crate::position::{sync_command, sync_position};
use crate::window::WindowHandle;

verus! {

/// How long the tracking loop sleeps between two ticks, in nanoseconds: just
/// long enough to yield the processor.
pub const TRACKING_POLL_NANOS: u64 = 1;

/// What the caller saw at the start of a tick.
#[derive(Clone, Copy, Debug, PartialEq, Eq, Structural)]
pub struct Observation {
    /// The target window, looked up anew; `None` while it is not running.
    pub target: Option<WindowHandle>,
    /// The overlay's own window.
    pub overlay: WindowHandle,
    /// The window that has the focus, if any.
    pub foreground: Option<WindowHandle>,
    /// Whether the user has asked to hide the overlay.
    pub user_hidden: bool,
    /// The target's bounding box; `None` if it could not be read, be it that
    /// the target is gone or that the caller did not ask.
    pub target_rect: Option<Rect>,
}

impl Observation {
    /// Whether the overlay is to be seen, going by this observation.
    pub open spec fn visible(self) -> bool {
        spec_should_be_visible(self.target, self.overlay, self.foreground, self.user_hidden)
    }

    /// Whether a tick on this observation can be carried through: the
    /// target's box is known whenever the overlay is to be seen.
    pub open spec fn complete(self) -> bool {
        self.visible() ==> self.target_rect is Some
    }
}

/// What the tracking loop remembers between ticks.
pub struct TrackerState {
    /// Whether the last visibility command hid the overlay.
    pub hidden: bool,
    /// The target rectangle that the overlay was last moved to.
    pub previous_rect: Rect,
}

/// The state a new tracking loop starts in: the overlay is on screen, as the
/// platform created it, and has not been moved yet.
pub open spec fn initial_state() -> TrackerState {
    TrackerState { hidden: false, previous_rect: Rect::zero() }
}

/// The commands that hide the overlay. When the user asked for it, the
/// target is given the focus as well, so that the user lands in the target.
pub open spec fn hide_commands(obs: Observation) -> Seq<Command> {
    let hidden = seq![Command::Hide { window: obs.overlay }];
    if obs.user_hidden && obs.target is Some {
        hidden.push(Command::Focus { window: obs.target->0 })
    } else {
        hidden
    }
}

/// The commands that bring the overlay over a target at `rect`: the move, if
/// the target is elsewhere than last time, then the show, if the overlay is
/// hidden.
pub open spec fn reveal_commands(state: TrackerState, obs: Observation, rect: Rect) -> Seq<
    Command,
> {
    let moved = match sync_command(rect, state.previous_rect, obs.overlay) {
        Some(command) => seq![command],
        None => Seq::<Command>::empty(),
    };
    if state.hidden {
        moved.push(Command::Show { window: obs.overlay })
    } else {
        moved
    }
}

/// The commands of one tick, in the order in which they are carried out.
pub open spec fn tick_commands(state: TrackerState, obs: Observation) -> Seq<Command> {
    if !obs.visible() {
        if state.hidden {
            Seq::<Command>::empty()
        } else {
            hide_commands(obs)
        }
    } else {
        match obs.target_rect {
            Some(rect) => reveal_commands(state, obs, rect),
            None => Seq::<Command>::empty(),
        }
    }
}

/// The state after one tick.
pub open spec fn tick_state(state: TrackerState, obs: Observation) -> TrackerState {
    if !obs.visible() {
        TrackerState { hidden: true, previous_rect: state.previous_rect }
    } else {
        match obs.target_rect {
            Some(rect) => TrackerState { hidden: false, previous_rect: rect },
            None => state,
        }
    }
}

/// Whether the overlay is hidden on screen once `commands` have been carried
/// out in order, if it was `hidden` before: the last hide or show decides.
pub open spec fn visibility_after(hidden: bool, commands: Seq<Command>) -> bool
    decreases commands.len(),
{
    if commands.len() == 0 {
        hidden
    } else {
        match commands.last() {
            Command::Hide { .. } => true,
            Command::Show { .. } => false,
            _ => visibility_after(hidden, commands.drop_last()),
        }
    }
}

/// How many of `commands` show a window.
pub open spec fn count_shows(commands: Seq<Command>) -> nat
    decreases commands.len(),
{
    if commands.len() == 0 {
        0
    } else {
        count_shows(commands.drop_last()) + if commands.last() is Show {
            1nat
        } else {
            0nat
        }
    }
}

/// The state after a run of ticks, one for each observation.
pub open spec fn run_state(state: TrackerState, observations: Seq<Observation>) -> TrackerState
    decreases observations.len(),
{
    if observations.len() == 0 {
        state
    } else {
        tick_state(run_state(state, observations.drop_last()), observations.last())
    }
}

/// All commands of a run of ticks, in the order in which they are carried out.
pub open spec fn run_commands(state: TrackerState, observations: Seq<Observation>) -> Seq<
    Command,
>
    decreases observations.len(),
{
    if observations.len() == 0 {
        Seq::<Command>::empty()
    } else {
        run_commands(state, observations.drop_last()) + tick_commands(
            run_state(state, observations.drop_last()),
            observations.last(),
        )
    }
}

/// The tracking loop's memory. Only `tick` changes it.
#[derive(Clone, Copy, Debug)]
pub struct Tracker {
    hidden: bool,
    previous_rect: Rect,
}

impl View for Tracker {
    type V = TrackerState;

    closed spec fn view(&self) -> TrackerState {
        TrackerState { hidden: self.hidden, previous_rect: self.previous_rect }
    }
}

impl Tracker {
    /// Starts a tracking loop for an overlay that is on screen.
    pub fn new() -> (tracker: Tracker)
        ensures
            tracker@ == initial_state(),
    {
        Tracker { hidden: false, previous_rect: Rect { left: 0, top: 0, right: 0, bottom: 0 } }
    }

    /// Whether the last visibility command hid the overlay.
    pub fn is_hidden(&self) -> (hidden: bool)
        ensures
            hidden == self@.hidden,
    {
        self.hidden
    }

    /// The target rectangle that the overlay was last moved to.
    pub fn previous_rect(&self) -> (rect: Rect)
        ensures
            rect == self@.previous_rect,
    {
        self.previous_rect
    }

    /// Makes one step of the tracking loop.
    ///
    /// If the overlay is not to be seen, it is hidden, unless it already is;
    /// when the user asked for it, the target is then given the focus. If the
    /// overlay is to be seen, it is first moved to where the target is now,
    /// unless it is there already, and then shown, unless it is on screen.
    /// If the overlay is to be seen but the target's box could not be read,
    /// the tick does nothing and the next one tries again.
    pub fn tick(&mut self, obs: &Observation) -> (commands: Vec<Command>)
        ensures
            final(self)@ == tick_state(old(self)@, *obs),
            commands@ == tick_commands(old(self)@, *obs),
    {
        let mut commands: Vec<Command> = Vec::new();
        if !should_be_visible(obs.target, obs.overlay, obs.foreground, obs.user_hidden) {
            if !self.hidden {
                commands.push(Command::Hide { window: obs.overlay });
                if obs.user_hidden {
                    if let Some(target) = obs.target {
                        commands.push(Command::Focus { window: target });
                    }
                }
                self.hidden = true;
            }
        } else if let Some(rect) = obs.target_rect {
            let (moved, remembered) = sync_position(rect, self.previous_rect, obs.overlay);
            if let Some(command) = moved {
                commands.push(command);
            }
            self.previous_rect = remembered;
            if self.hidden {
                commands.push(Command::Show { window: obs.overlay });
                self.hidden = false;
            }
        }
        assert(commands@ =~= tick_commands(old(self)@, *obs));
        commands
    }
}

/// The move of a position sync as a list: one command or none.
pub open spec fn sync_commands(rect: Rect, previous_rect: Rect, overlay: WindowHandle) -> Seq<
    Command,
> {
    match sync_command(rect, previous_rect, overlay) {
        Some(command) => seq![command],
        None => Seq::<Command>::empty(),
    }
}

/// A hidden overlay that is to be seen again is put in place first and shown
/// second: the tick makes one position sync, whose move, if it makes one,
/// comes first, and then exactly one show, which is the tick's last command.
pub proof fn lemma_reappearing_syncs_then_shows(state: TrackerState, obs: Observation)
    requires
        state.hidden,
        obs.visible(),
        obs.target_rect is Some,
    ensures
        tick_commands(state, obs) == sync_commands(
            obs.target_rect->0,
            state.previous_rect,
            obs.overlay,
        ).push(Command::Show { window: obs.overlay }),
        count_shows(tick_commands(state, obs)) == 1,
        tick_commands(state, obs).last() == (Command::Show { window: obs.overlay }),
        forall|i: int|
            0 <= i < tick_commands(state, obs).len() && tick_commands(state, obs)[i] is MoveResize
                ==> i < tick_commands(state, obs).len() - 1,
        tick_state(state, obs).previous_rect == obs.target_rect->0,
        !tick_state(state, obs).hidden,
{
    let commands = tick_commands(state, obs);
    let moved = sync_commands(obs.target_rect->0, state.previous_rect, obs.overlay);
    assert(commands =~= moved.push(Command::Show { window: obs.overlay }));
    assert(commands.drop_last() =~= moved);
    assert(count_shows(moved) == 0) by {
        if moved.len() == 1 {
            assert(moved.drop_last() =~= Seq::<Command>::empty());
            reveal_with_fuel(count_shows, 2);
        }
    }
}

/// After a tick the remembered visibility is the one on screen: it is what
/// the tick's last hide or show made it, and what it was before if the tick
/// issued neither.
pub proof fn lemma_tick_tracks_visibility(state: TrackerState, obs: Observation)
    ensures
        tick_state(state, obs).hidden == visibility_after(
            state.hidden,
            tick_commands(state, obs),
        ),
{
    let commands = tick_commands(state, obs);
    reveal_with_fuel(visibility_after, 3);
    if !obs.visible() {
        if !state.hidden {
            let first = seq![Command::Hide { window: obs.overlay }];
            if commands.len() == 2 {
                assert(commands.drop_last() =~= first);
            }
        }
    } else if obs.target_rect is Some {
        let moved = sync_commands(obs.target_rect->0, state.previous_rect, obs.overlay);
        if state.hidden {
            assert(commands =~= moved.push(Command::Show { window: obs.overlay }));
        } else {
            assert(commands =~= moved);
            if moved.len() == 1 {
                assert(moved.drop_last() =~= Seq::<Command>::empty());
            }
        }
    }
}

/// Carrying out one list of commands after another leaves the overlay as the
/// second list leaves it, starting from where the first one left it.
pub proof fn lemma_visibility_after_concat(hidden: bool, first: Seq<Command>, second: Seq<Command>)
    ensures
        visibility_after(hidden, first + second) == visibility_after(
            visibility_after(hidden, first),
            second,
        ),
    decreases second.len(),
{
    if second.len() == 0 {
        assert(first + second =~= first);
    } else {
        assert((first + second).last() == second.last());
        assert((first + second).drop_last() =~= first + second.drop_last());
        lemma_visibility_after_concat(hidden, first, second.drop_last());
    }
}

/// Through any run of ticks, from any state, the remembered visibility is the
/// one on screen.
pub proof fn lemma_run_tracks_visibility(state: TrackerState, observations: Seq<Observation>)
    ensures
        run_state(state, observations).hidden == visibility_after(
            state.hidden,
            run_commands(state, observations),
        ),
    decreases observations.len(),
{
    if observations.len() > 0 {
        let before = observations.drop_last();
        lemma_run_tracks_visibility(state, before);
        lemma_tick_tracks_visibility(run_state(state, before), observations.last());
        lemma_visibility_after_concat(
            state.hidden,
            run_commands(state, before),
            tick_commands(run_state(state, before), observations.last()),
        );
    }
}

/// A tick that could be carried through leaves the overlay hidden exactly
/// when it is not to be seen: no hide or show is put off to a later tick.
pub proof fn lemma_tick_follows_observation(state: TrackerState, obs: Observation)
    requires
        obs.complete(),
    ensures
        tick_state(state, obs).hidden == !obs.visible(),
{
}

/// The overlay is moved only in a tick that leaves it on screen, and every
/// move, hide and show is addressed to the overlay.
pub proof fn lemma_moves_only_while_shown(state: TrackerState, obs: Observation, i: int)
    requires
        0 <= i < tick_commands(state, obs).len(),
    ensures
        tick_commands(state, obs)[i] is MoveResize ==> !tick_state(state, obs).hidden,
        match tick_commands(state, obs)[i] {
            Command::MoveResize { window, .. } => window == obs.overlay,
            Command::Hide { window } => window == obs.overlay,
            Command::Show { window } => window == obs.overlay,
            Command::Focus { window } => obs.user_hidden && obs.target == Some(window),
        },
{
}

/// No command repeats what is already so: a tick hides only an overlay that
/// is on screen and shows only one that is hidden.
pub proof fn lemma_no_redundant_commands(state: TrackerState, obs: Observation, i: int)
    requires
        0 <= i < tick_commands(state, obs).len(),
    ensures
        tick_commands(state, obs)[i] is Hide ==> !state.hidden,
        tick_commands(state, obs)[i] is Show ==> state.hidden,
{
}

/// A tick issues commands exactly when it changes what the loop remembers:
/// while the overlay is as it should be and where it should be, the platform
/// is left alone.
pub proof fn lemma_silent_unless_changed(state: TrackerState, obs: Observation)
    ensures
        tick_commands(state, obs).len() == 0 <==> tick_state(state, obs) == state,
{
}

} // verus!
