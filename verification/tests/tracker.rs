use railers::command::Command;
use railers::geometry::{Placement, Rect};
use railers::tracker::{Observation, Tracker};
use railers::window::WindowHandle;

fn handle(raw: isize) -> WindowHandle {
    WindowHandle::from_raw(raw).unwrap()
}

fn target() -> WindowHandle {
    handle(0x51)
}

fn overlay() -> WindowHandle {
    handle(0x52)
}

fn other() -> WindowHandle {
    handle(0x53)
}

fn rect() -> Rect {
    Rect { left: 100, top: 100, right: 900, bottom: 700 }
}

fn placed() -> Command {
    Command::MoveResize {
        window: overlay(),
        placement: Placement { x: 108, y: 131, width: 784, height: 561 },
    }
}

/// The target is running and has the focus.
fn in_target() -> Observation {
    Observation {
        target: Some(target()),
        overlay: overlay(),
        foreground: Some(target()),
        user_hidden: false,
        target_rect: Some(rect()),
    }
}

/// The target is running, but the user works elsewhere.
fn elsewhere() -> Observation {
    Observation { foreground: Some(other()), ..in_target() }
}

/// A tracker whose overlay is hidden and was never moved.
fn hidden_tracker() -> Tracker {
    let mut tracker = Tracker::new();
    tracker.tick(&elsewhere());
    assert!(tracker.is_hidden());
    tracker
}

#[test]
fn new_tracker_has_a_visible_overlay_that_never_moved() {
    let tracker = Tracker::new();
    assert!(!tracker.is_hidden());
    assert_eq!(tracker.previous_rect(), Rect { left: 0, top: 0, right: 0, bottom: 0 });
}

#[test]
fn reappearing_moves_and_then_shows() {
    let mut tracker = hidden_tracker();
    let commands = tracker.tick(&in_target());
    assert_eq!(commands, vec![placed(), Command::Show { window: overlay() }]);
    assert!(!tracker.is_hidden());
    assert_eq!(tracker.previous_rect(), rect());
}

#[test]
fn reappearing_shows_exactly_once_and_last() {
    let mut tracker = hidden_tracker();
    let commands = tracker.tick(&in_target());
    let shows = commands.iter().filter(|c| matches!(c, Command::Show { .. })).count();
    let moves = commands.iter().filter(|c| matches!(c, Command::MoveResize { .. })).count();
    assert_eq!(shows, 1);
    assert_eq!(moves, 1);
    let show_at = commands.iter().position(|c| matches!(c, Command::Show { .. })).unwrap();
    let move_at = commands.iter().position(|c| matches!(c, Command::MoveResize { .. })).unwrap();
    assert!(move_at < show_at);
    assert_eq!(show_at, commands.len() - 1);
}

#[test]
fn reappearing_in_place_only_shows() {
    let mut tracker = Tracker::new();
    tracker.tick(&in_target());
    tracker.tick(&elsewhere());
    let commands = tracker.tick(&in_target());
    assert_eq!(commands, vec![Command::Show { window: overlay() }]);
    assert!(!tracker.is_hidden());
}

#[test]
fn reappearing_snaps_to_where_the_target_went_meanwhile() {
    let mut tracker = Tracker::new();
    tracker.tick(&in_target());
    let moved = Rect { left: 300, top: 50, right: 1100, bottom: 650 };
    assert_eq!(
        tracker.tick(&Observation { target_rect: Some(moved), ..elsewhere() }),
        vec![Command::Hide { window: overlay() }]
    );
    assert_eq!(tracker.previous_rect(), rect());
    let commands = tracker.tick(&Observation { target_rect: Some(moved), ..in_target() });
    assert_eq!(
        commands,
        vec![
            Command::MoveResize {
                window: overlay(),
                placement: Placement { x: 308, y: 81, width: 784, height: 561 },
            },
            Command::Show { window: overlay() },
        ]
    );
    assert_eq!(tracker.previous_rect(), moved);
}

#[test]
fn first_tick_in_the_target_moves_without_showing() {
    let mut tracker = Tracker::new();
    assert_eq!(tracker.tick(&in_target()), vec![placed()]);
    assert!(!tracker.is_hidden());
    assert_eq!(tracker.previous_rect(), rect());
}

#[test]
fn first_tick_elsewhere_hides() {
    let mut tracker = Tracker::new();
    assert_eq!(tracker.tick(&elsewhere()), vec![Command::Hide { window: overlay() }]);
    assert!(tracker.is_hidden());
}

#[test]
fn steady_visible_overlay_needs_no_commands() {
    let mut tracker = Tracker::new();
    tracker.tick(&in_target());
    assert_eq!(tracker.tick(&in_target()), vec![]);
    assert_eq!(tracker.tick(&Observation { foreground: Some(overlay()), ..in_target() }), vec![]);
    assert!(!tracker.is_hidden());
}

#[test]
fn steady_hidden_overlay_needs_no_commands() {
    let mut tracker = hidden_tracker();
    assert_eq!(tracker.tick(&elsewhere()), vec![]);
    assert_eq!(tracker.tick(&Observation { user_hidden: true, ..in_target() }), vec![]);
    assert_eq!(tracker.tick(&Observation { target: None, target_rect: None, ..elsewhere() }), vec![]);
    assert!(tracker.is_hidden());
}

#[test]
fn visible_overlay_follows_the_target() {
    let mut tracker = Tracker::new();
    tracker.tick(&in_target());
    let moved = Rect { left: 101, top: 100, right: 901, bottom: 700 };
    assert_eq!(
        tracker.tick(&Observation { target_rect: Some(moved), ..in_target() }),
        vec![Command::MoveResize {
            window: overlay(),
            placement: Placement { x: 109, y: 131, width: 784, height: 561 },
        }]
    );
    assert_eq!(tracker.previous_rect(), moved);
    assert!(!tracker.is_hidden());
}

#[test]
fn losing_the_focus_hides_without_touching_the_focus() {
    let mut tracker = Tracker::new();
    tracker.tick(&in_target());
    assert_eq!(tracker.tick(&elsewhere()), vec![Command::Hide { window: overlay() }]);
    assert!(tracker.is_hidden());
    assert_eq!(tracker.previous_rect(), rect());
}

#[test]
fn hiding_by_the_user_returns_the_focus_to_the_target() {
    let mut tracker = Tracker::new();
    tracker.tick(&in_target());
    let commands =
        tracker.tick(&Observation { foreground: Some(overlay()), user_hidden: true, ..in_target() });
    assert_eq!(
        commands,
        vec![Command::Hide { window: overlay() }, Command::Focus { window: target() }]
    );
    assert!(tracker.is_hidden());
}

#[test]
fn hiding_by_the_user_without_a_target_only_hides() {
    let mut tracker = Tracker::new();
    let commands = tracker.tick(&Observation {
        target: None,
        overlay: overlay(),
        foreground: Some(overlay()),
        user_hidden: true,
        target_rect: None,
    });
    assert_eq!(commands, vec![Command::Hide { window: overlay() }]);
    assert!(tracker.is_hidden());
}

#[test]
fn target_that_went_away_hides_the_overlay() {
    let mut tracker = Tracker::new();
    tracker.tick(&in_target());
    let commands = tracker.tick(&Observation {
        target: None,
        overlay: overlay(),
        foreground: Some(overlay()),
        user_hidden: false,
        target_rect: None,
    });
    assert_eq!(commands, vec![Command::Hide { window: overlay() }]);
    assert!(tracker.is_hidden());
}

#[test]
fn unreadable_rectangle_puts_the_tick_off() {
    let mut tracker = hidden_tracker();
    assert_eq!(tracker.tick(&Observation { target_rect: None, ..in_target() }), vec![]);
    assert!(tracker.is_hidden());
    assert_eq!(tracker.previous_rect(), Rect::default());
    assert_eq!(tracker.tick(&in_target()), vec![placed(), Command::Show { window: overlay() }]);
}

#[test]
fn unreadable_rectangle_leaves_a_visible_overlay_alone() {
    let mut tracker = Tracker::new();
    tracker.tick(&in_target());
    assert_eq!(tracker.tick(&Observation { target_rect: None, ..in_target() }), vec![]);
    assert!(!tracker.is_hidden());
    assert_eq!(tracker.previous_rect(), rect());
}

#[test]
fn rectangle_is_ignored_while_the_overlay_is_not_to_be_seen() {
    let mut tracker = Tracker::new();
    let moved = Rect { left: 1, top: 2, right: 3, bottom: 4 };
    tracker.tick(&Observation { target_rect: Some(moved), ..elsewhere() });
    assert_eq!(tracker.previous_rect(), Rect::default());
}

#[test]
fn remembered_visibility_is_the_last_command_through_a_run() {
    let run = [
        in_target(),
        elsewhere(),
        elsewhere(),
        Observation { target_rect: None, ..in_target() },
        in_target(),
        Observation { user_hidden: true, ..in_target() },
        Observation { user_hidden: true, ..elsewhere() },
        Observation { foreground: Some(overlay()), ..in_target() },
        Observation { target: None, target_rect: None, ..in_target() },
        in_target(),
    ];
    let mut tracker = Tracker::new();
    let mut on_screen_hidden = false;
    for obs in run {
        for command in tracker.tick(&obs) {
            match command {
                Command::Hide { window } => {
                    assert_eq!(window, overlay());
                    assert!(!on_screen_hidden);
                    on_screen_hidden = true;
                }
                Command::Show { window } => {
                    assert_eq!(window, overlay());
                    assert!(on_screen_hidden);
                    on_screen_hidden = false;
                }
                Command::MoveResize { window, .. } => assert_eq!(window, overlay()),
                Command::Focus { window } => assert_eq!(window, target()),
            }
        }
        assert_eq!(tracker.is_hidden(), on_screen_hidden);
    }
    assert!(!tracker.is_hidden());
}

#[test]
fn commands_are_issued_exactly_when_the_memory_changes() {
    let moved = Rect { left: 5, top: 6, right: 700, bottom: 800 };
    let observations = [
        in_target(),
        elsewhere(),
        Observation { target_rect: Some(moved), ..in_target() },
        Observation { target_rect: None, ..in_target() },
        Observation { user_hidden: true, ..in_target() },
        Observation { target: None, target_rect: None, ..in_target() },
    ];
    for first in observations {
        for second in observations {
            let mut tracker = Tracker::new();
            tracker.tick(&first);
            let before = (tracker.is_hidden(), tracker.previous_rect());
            let commands = tracker.tick(&second);
            let after = (tracker.is_hidden(), tracker.previous_rect());
            assert_eq!(commands.is_empty(), before == after);
        }
    }
}

#[test]
fn overlay_is_moved_only_in_a_tick_that_leaves_it_on_screen() {
    let moved = Rect { left: 5, top: 6, right: 700, bottom: 800 };
    let observations = [
        in_target(),
        elsewhere(),
        Observation { target_rect: Some(moved), ..in_target() },
        Observation { target_rect: Some(moved), ..elsewhere() },
        Observation { target_rect: Some(moved), user_hidden: true, ..in_target() },
    ];
    for first in observations {
        for second in observations {
            let mut tracker = Tracker::new();
            tracker.tick(&first);
            let commands = tracker.tick(&second);
            if commands.iter().any(|c| matches!(c, Command::MoveResize { .. })) {
                assert!(!tracker.is_hidden());
            }
        }
    }
}
