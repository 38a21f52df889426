use asteroids::input::UserInput;

#[test]
fn fresh_input_is_all_clear() {
    let u = UserInput::new();
    assert!(!u.mouse_down && !u.spacebar);
    assert!(!u.keyboard_w && !u.keyboard_a && !u.keyboard_s && !u.keyboard_d);
    assert_eq!(u.mouse_x, 0);
    assert_eq!(u.rotation_x_axis, 0);
}

#[test]
fn mouse_down_latches_position_and_state() {
    let mut u = UserInput::new();
    u.update_mouse_down(120, 45, true);
    assert!(u.mouse_down);
    assert_eq!(u.mouse_x, 120);
    assert_eq!(u.mouse_y, 45);
    u.update_mouse_down(120, 45, false);
    assert!(!u.mouse_down);
}

#[test]
fn drag_across_half_the_canvas_turns_a_quarter_circle() {
    let mut u = UserInput::new();
    u.update_mouse_down(0, 0, true);
    // Canvas 800 x 600; pointer moves to (400, 300). The vertical axis is
    // inverted, so the y delta is (600 - 300) - 0 = 300.
    u.update_mouse_position(400, 300, 800, 600);
    assert_eq!(u.rotation_y_axis, 1_570_796); // pi * 400 / 800, micro-radians
    assert_eq!(u.rotation_x_axis, 1_570_796); // pi * 300 / 600
    assert_eq!(u.mouse_x_centered, 0);
    assert_eq!(u.mouse_y_centered, 0);
    assert_eq!(u.mouse_x, 400);
    assert_eq!(u.mouse_y, 300);
}

#[test]
fn released_pointer_moves_without_rotating() {
    let mut u = UserInput::new();
    u.update_mouse_position(200, 100, 800, 600);
    assert_eq!(u.rotation_x_axis, 0);
    assert_eq!(u.rotation_y_axis, 0);
    assert_eq!(u.mouse_x_centered, -200); // 200 - 800/2
    assert_eq!(u.mouse_y_centered, 200); // 600/2 - 100
}

#[test]
fn keyboard_setters_latch_each_control() {
    let mut u = UserInput::new();
    u.update_spacebar(true);
    u.update_keyboard_w(true);
    u.update_keyboard_a(true);
    u.update_keyboard_s(true);
    u.update_keyboard_d(true);
    assert!(u.spacebar && u.keyboard_w && u.keyboard_a && u.keyboard_s && u.keyboard_d);
    u.update_keyboard_w(false);
    assert!(!u.keyboard_w && u.keyboard_a);
}
