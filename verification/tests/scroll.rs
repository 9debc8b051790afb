use scroll_controller::{ControllerEvent, ScrollController, ScrollSettings};

fn demo_controller(speed: i64) -> ScrollController {
    let settings = ScrollSettings::new().speed(speed);
    ScrollController::new([10, 10, 100, 200], [250, 250], &settings)
}

#[test]
fn settings_default_speed() {
    let settings = ScrollSettings::new();
    assert_eq!(settings.speed, 1);
}

#[test]
fn settings_builder_speed() {
    let settings = ScrollSettings::new().speed(5);
    assert_eq!(settings.speed, 5);
    let settings = settings.speed(3);
    assert_eq!(settings.speed, 3);
}

#[test]
fn new_initializes_fields() {
    let c = demo_controller(5);
    assert_eq!(c.cursor, [0, 0]);
    assert_eq!(c.offset, [0, 0]);
    assert_eq!(c.bounds, [10, 10, 100, 200]);
    assert_eq!(c.area, [250, 250]);
    assert_eq!(c.speed, 5);
}

#[test]
fn visible_rect_at_origin() {
    let c = demo_controller(5);
    assert_eq!(c.visible_area_rect(), [0, 0, 100, 200]);
}

#[test]
fn visible_rect_clamps_to_area() {
    let settings = ScrollSettings::new();
    let c = ScrollController::new([0, 0, 300, 300], [250, 250], &settings);
    assert_eq!(c.visible_area_rect(), [0, 0, 250, 250]);
}

#[test]
fn overlay_rect_pairing() {
    let mut c = demo_controller(5);
    let overlay = c.rect_from_area_to_view(c.visible_area_rect());
    assert_eq!(overlay, [10, 10, 100, 200]);

    // The offset cancels out: panning does not move the overlay's origin.
    c.event(&ControllerEvent::MouseCursor([50, 50]));
    c.event(&ControllerEvent::MouseScroll([1, 1]));
    assert_eq!(c.offset, [-5, 0]);
    let overlay = c.rect_from_area_to_view(c.visible_area_rect());
    assert_eq!(overlay, [10, 10, 100, 200]);
}

#[test]
fn scroll_inside_moves_and_clamps() {
    let mut c = demo_controller(5);
    c.event(&ControllerEvent::MouseCursor([50, 50]));
    c.event(&ControllerEvent::MouseScroll([1, 1]));
    // x: candidate -5 is within range; y: candidate 5 is positive, clamped to 0.
    assert_eq!(c.offset, [-5, 0]);
}

#[test]
fn scroll_outside_keeps_offset() {
    let mut c = demo_controller(5);
    // The cursor starts at [0, 0], outside bounds [10, 10, 100, 200].
    c.event(&ControllerEvent::MouseScroll([1, 1]));
    assert_eq!(c.offset, [0, 0]);

    c.event(&ControllerEvent::MouseCursor([50, 50]));
    c.event(&ControllerEvent::MouseScroll([1, 1]));
    assert_eq!(c.offset, [-5, 0]);

    // Leaving the bounds freezes the offset again.
    c.event(&ControllerEvent::MouseCursor([5, 5]));
    c.event(&ControllerEvent::MouseScroll([1, 1]));
    assert_eq!(c.offset, [-5, 0]);
}

#[test]
fn other_events_change_nothing() {
    let mut c = demo_controller(5);
    c.event(&ControllerEvent::MouseCursor([50, 50]));
    c.event(&ControllerEvent::Other);
    assert_eq!(c.cursor, [50, 50]);
    assert_eq!(c.offset, [0, 0]);
}

#[test]
fn cursor_tracked_while_outside() {
    let mut c = demo_controller(1);
    c.event(&ControllerEvent::MouseCursor([5, 5]));
    assert_eq!(c.cursor, [5, 5]);
    c.event(&ControllerEvent::MouseCursor([50, 50]));
    c.event(&ControllerEvent::MouseScroll([1, 0]));
    assert_eq!(c.offset, [-1, 0]);
}

#[test]
fn repeated_scroll_converges_x() {
    let mut c = demo_controller(5);
    c.event(&ControllerEvent::MouseCursor([50, 50]));
    // The far edge on x is -(250 - 100) = -150; each scroll moves by -5.
    for _ in 0..30 {
        c.event(&ControllerEvent::MouseScroll([1, 0]));
    }
    assert_eq!(c.offset[0], -150);
    for _ in 0..10 {
        c.event(&ControllerEvent::MouseScroll([1, 0]));
    }
    assert_eq!(c.offset[0], -150);
}

#[test]
fn repeated_scroll_converges_y() {
    let mut c = demo_controller(5);
    c.event(&ControllerEvent::MouseCursor([50, 50]));
    // The far edge on y is -(250 - 200) = -50; each scroll moves by -5.
    for _ in 0..10 {
        c.event(&ControllerEvent::MouseScroll([0, -1]));
    }
    assert_eq!(c.offset[1], -50);
    for _ in 0..10 {
        c.event(&ControllerEvent::MouseScroll([0, -1]));
    }
    assert_eq!(c.offset[1], -50);
}

#[test]
fn scroll_back_returns_to_start() {
    let mut c = demo_controller(5);
    c.event(&ControllerEvent::MouseCursor([50, 50]));
    c.event(&ControllerEvent::MouseScroll([1, 0]));
    assert_eq!(c.offset, [-5, 0]);
    c.event(&ControllerEvent::MouseScroll([-1, 0]));
    assert_eq!(c.offset, [0, 0]);
}

#[test]
fn x_axis_locked_when_viewport_wider() {
    let settings = ScrollSettings::new().speed(5);
    let mut c = ScrollController::new([0, 0, 300, 100], [250, 250], &settings);
    c.event(&ControllerEvent::MouseCursor([50, 50]));
    c.event(&ControllerEvent::MouseScroll([1, 0]));
    assert_eq!(c.offset[0], 0);
    c.event(&ControllerEvent::MouseScroll([-1, 0]));
    assert_eq!(c.offset[0], 0);
}

#[test]
fn x_axis_locked_when_extents_equal() {
    let settings = ScrollSettings::new().speed(5);
    let mut c = ScrollController::new([0, 0, 250, 100], [250, 250], &settings);
    c.event(&ControllerEvent::MouseCursor([50, 50]));
    c.event(&ControllerEvent::MouseScroll([1, 0]));
    assert_eq!(c.offset[0], 0);
}

#[test]
fn y_axis_passes_through_when_extents_equal() {
    // With equal content and viewport heights the y clamp has no far-edge
    // branch: a negative candidate drifts through instead of locking to 0.
    let settings = ScrollSettings::new().speed(5);
    let mut c = ScrollController::new([0, 0, 100, 200], [250, 200], &settings);
    c.event(&ControllerEvent::MouseCursor([50, 50]));
    c.event(&ControllerEvent::MouseScroll([0, -1]));
    assert_eq!(c.offset[1], -5);
    c.event(&ControllerEvent::MouseScroll([0, -1]));
    assert_eq!(c.offset[1], -10);
    // Scrolling back up clamps at 0 as usual.
    c.event(&ControllerEvent::MouseScroll([0, 3]));
    assert_eq!(c.offset[1], 0);
}

#[test]
fn negative_speed_reverses_response() {
    let mut c = demo_controller(-5);
    c.event(&ControllerEvent::MouseCursor([50, 50]));
    c.event(&ControllerEvent::MouseScroll([1, 1]));
    // x: candidate 0 - 1 * (-5) = 5, positive, clamped to 0;
    // y: candidate 0 + 1 * (-5) = -5, within range.
    assert_eq!(c.offset, [0, -5]);
}
