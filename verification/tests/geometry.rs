use railers::geometry::{
    overlay_placement, Placement, Rect, INSET_HEIGHT, INSET_LEFT, INSET_TOP, INSET_WIDTH,
};

#[test]
fn insets_are_the_targets_decorations() {
    assert_eq!(INSET_LEFT, 8);
    assert_eq!(INSET_TOP, 31);
    assert_eq!(INSET_WIDTH, 16);
    assert_eq!(INSET_HEIGHT, 39);
}

#[test]
fn placement_of_an_800_by_600_target() {
    let rect = Rect { left: 100, top: 100, right: 900, bottom: 700 };
    assert_eq!(overlay_placement(rect), Placement { x: 108, y: 131, width: 784, height: 561 });
}

#[test]
fn placement_at_the_origin() {
    let rect = Rect { left: 0, top: 0, right: 1280, bottom: 720 };
    assert_eq!(overlay_placement(rect), Placement { x: 8, y: 31, width: 1264, height: 681 });
}

#[test]
fn placement_on_a_screen_to_the_left() {
    let rect = Rect { left: -1920, top: -40, right: -640, bottom: 680 };
    assert_eq!(overlay_placement(rect), Placement { x: -1912, y: -9, width: 1264, height: 681 });
}

#[test]
fn placement_of_a_target_smaller_than_its_decorations() {
    let rect = Rect { left: 10, top: 10, right: 20, bottom: 20 };
    assert_eq!(overlay_placement(rect), Placement { x: 18, y: 41, width: -6, height: -29 });
}

#[test]
fn placement_of_an_empty_target() {
    assert_eq!(
        overlay_placement(Rect::default()),
        Placement { x: 8, y: 31, width: -16, height: -39 }
    );
}

#[test]
fn placement_at_the_limits_of_the_coordinates() {
    let widest = Rect { left: i32::MIN, top: i32::MIN, right: i32::MAX, bottom: i32::MAX };
    assert_eq!(
        overlay_placement(widest),
        Placement { x: -2147483640, y: -2147483617, width: 4294967279, height: 4294967256 }
    );
    let far = Rect { left: i32::MAX, top: i32::MAX, right: i32::MIN, bottom: i32::MIN };
    assert_eq!(
        overlay_placement(far),
        Placement { x: 2147483655, y: 2147483678, width: -4294967311, height: -4294967334 }
    );
}

#[test]
fn default_rect_is_all_zero() {
    assert_eq!(Rect::default(), Rect { left: 0, top: 0, right: 0, bottom: 0 });
}
