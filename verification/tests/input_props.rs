use softraster::input_handler::InputHandler;
use softraster::key_event::KeyEvent;
use softraster::keycode::KeyCode;
use softraster::mouse_button::MouseButton;
use softraster::mouse_event::MouseEvent;

#[test]
fn new_handler_is_idle() {
    let h = InputHandler::new();
    assert!(!h.up.pressed && !h.down.pressed && !h.left.pressed && !h.right.pressed);
    assert!(!h.mouse_left.pressed && !h.mouse_left.click && !h.mouse_left.released);
    assert_eq!(h.mouse_pos.x.raw, 0);
    assert_eq!(h.scroll_y, 0);
}

#[test]
fn key_press_and_release_toggle_held() {
    let mut h = InputHandler::new();
    h.handle_key_event(&KeyEvent::Pressed { key: KeyCode::Up });
    assert!(h.up.pressed);
    h.handle_key_event(&KeyEvent::Pressed { key: KeyCode::LShift });
    assert!(h.shift.pressed && h.up.pressed);
    h.handle_key_event(&KeyEvent::Released { key: KeyCode::Up });
    assert!(!h.up.pressed && h.shift.pressed);
    // A key the handler does not track changes nothing.
    let before = h;
    h.handle_key_event(&KeyEvent::Pressed { key: KeyCode::Tab });
    assert_eq!(h, before);
}

#[test]
fn click_fires_once_per_press() {
    let mut h = InputHandler::new();
    h.handle_mouse_event(&MouseEvent::ButtonDown { x: 10, y: 20, btn: MouseButton::Left });
    assert!(h.mouse_left.click && h.mouse_left.pressed);
    assert_eq!(h.mouse_pos_on_click.x.raw, 10 * 65536);
    assert_eq!(h.mouse_pos_on_click.y.raw, 20 * 65536);
    h.new_frame();
    // Held down: a second down event is not a fresh click.
    h.handle_mouse_event(&MouseEvent::ButtonDown { x: 12, y: 21, btn: MouseButton::Left });
    assert!(!h.mouse_left.click && h.mouse_left.pressed);
    h.handle_mouse_event(&MouseEvent::ButtonRelease { x: 12, y: 21, btn: MouseButton::Left });
    assert!(h.mouse_left.released && !h.mouse_left.pressed);
}

#[test]
fn positions_are_clamped_to_the_screen() {
    let mut h = InputHandler::new();
    h.handle_mouse_event(&MouseEvent::NewPosition { x: 5000, y: 7 });
    assert_eq!(h.mouse_pos.x.raw, 640 * 65536);
    assert_eq!(h.mouse_pos.y.raw, 7 * 65536);
}

#[test]
fn new_frame_derives_the_delta() {
    let mut h = InputHandler::new();
    h.handle_mouse_event(&MouseEvent::NewPosition { x: 10, y: 10 });
    h.handle_mouse_event(&MouseEvent::NewPosition { x: 25, y: 4 });
    h.new_frame();
    assert_eq!(h.mouse_delta.x.raw, 15 * 65536);
    assert_eq!(h.mouse_delta.y.raw, -6 * 65536);
}

#[test]
fn wheel_scroll_is_reported_then_reset() {
    let mut h = InputHandler::new();
    h.handle_mouse_event(&MouseEvent::WheelScroll { y: -3 });
    assert_eq!(h.scroll_y, -3);
    h.new_frame();
    assert_eq!(h.scroll_y, 0);
}
