//! Turns raw key and mouse events into per-frame input state.

use crate::fixed::{fx, fx_sub, Fx};
use crate::key_event::{KeyEvent, KeyState};
use crate::keycode::KeyCode;
use crate::mouse_button::MouseButton;
use crate::mouse_event::MouseEvent;
use crate::screen::{SCREEN_HEIGHT, SCREEN_WIDTH};
use crate::vec2::Vector2;
use vstd::prelude::*;

verus! {

#[derive(Debug, Clone, Copy, PartialEq, Eq, Structural)]
pub struct InputHandler {
    pub up: KeyState,
    pub down: KeyState,
    pub left: KeyState,
    pub right: KeyState,
    pub space: KeyState,
    pub shift: KeyState,
    pub w: KeyState,
    pub s: KeyState,
    pub a: KeyState,
    pub d: KeyState,
    pub mouse_left: KeyState,
    pub mouse_middle: KeyState,
    pub mouse_right: KeyState,
    pub mouse_pos: Vector2,
    pub mouse_pos_last: Vector2,
    pub mouse_delta: Vector2,
    pub mouse_pos_on_click: Vector2,
    pub scroll_y: i32,
}

/// A mouse coordinate clamped into the screen, at fixed scale.
pub open spec fn spec_clamped_mouse(v: int, limit: int) -> Fx {
    fx(Fx::spec_from_int(if v > limit {
        limit
    } else {
        v
    }))
}

impl InputHandler {
    /// The state before any event: nothing pressed, everything at zero.
    pub open spec fn spec_initial() -> InputHandler {
        InputHandler {
            up: KeyState { click: false, pressed: false, released: false },
            down: KeyState { click: false, pressed: false, released: false },
            left: KeyState { click: false, pressed: false, released: false },
            right: KeyState { click: false, pressed: false, released: false },
            space: KeyState { click: false, pressed: false, released: false },
            shift: KeyState { click: false, pressed: false, released: false },
            w: KeyState { click: false, pressed: false, released: false },
            s: KeyState { click: false, pressed: false, released: false },
            a: KeyState { click: false, pressed: false, released: false },
            d: KeyState { click: false, pressed: false, released: false },
            mouse_left: KeyState { click: false, pressed: false, released: false },
            mouse_middle: KeyState { click: false, pressed: false, released: false },
            mouse_right: KeyState { click: false, pressed: false, released: false },
            mouse_pos: Vector2 { x: fx(0), y: fx(0) },
            mouse_pos_last: Vector2 { x: fx(0), y: fx(0) },
            mouse_delta: Vector2 { x: fx(0), y: fx(0) },
            mouse_pos_on_click: Vector2 { x: fx(0), y: fx(0) },
            scroll_y: 0,
        }
    }

    /// The state after one key event: the matching key's held flag follows
    /// whether the event was a press; other keys are untouched.
    pub open spec fn spec_after_key(s: InputHandler, ev: KeyEvent) -> InputHandler {
        let key = match ev {
            KeyEvent::Pressed { key } => key,
            KeyEvent::Released { key } => key,
        };
        let state = ev is Pressed;
        match key {
            KeyCode::Up => InputHandler { up: KeyState { pressed: state, ..s.up }, ..s },
            KeyCode::Down => InputHandler { down: KeyState { pressed: state, ..s.down }, ..s },
            KeyCode::Left => InputHandler { left: KeyState { pressed: state, ..s.left }, ..s },
            KeyCode::Right => InputHandler { right: KeyState { pressed: state, ..s.right }, ..s },
            KeyCode::Space => InputHandler { space: KeyState { pressed: state, ..s.space }, ..s },
            KeyCode::LShift => InputHandler { shift: KeyState { pressed: state, ..s.shift }, ..s },
            KeyCode::W => InputHandler { w: KeyState { pressed: state, ..s.w }, ..s },
            KeyCode::S => InputHandler { s: KeyState { pressed: state, ..s.s }, ..s },
            KeyCode::A => InputHandler { a: KeyState { pressed: state, ..s.a }, ..s },
            KeyCode::D => InputHandler { d: KeyState { pressed: state, ..s.d }, ..s },
            _ => s,
        }
    }

    /// The state after one mouse event: positions are clamped into the
    /// screen, the previous position is remembered, and button flags follow
    /// presses and releases; a fresh press records the click position.
    pub open spec fn spec_after_mouse(s: InputHandler, ev: MouseEvent) -> InputHandler {
        match ev {
            MouseEvent::ButtonDown { x, y, btn } => {
                let pos = Vector2 {
                    x: spec_clamped_mouse(x as int, SCREEN_WIDTH as int),
                    y: spec_clamped_mouse(y as int, SCREEN_HEIGHT as int),
                };
                let moved = InputHandler { mouse_pos_last: s.mouse_pos, mouse_pos: pos, ..s };
                match btn {
                    MouseButton::Left => InputHandler {
                        mouse_left: KeyState {
                            click: !s.mouse_left.pressed || s.mouse_left.click,
                            pressed: true,
                            ..s.mouse_left
                        },
                        mouse_pos_on_click: if !s.mouse_left.pressed {
                            pos
                        } else {
                            s.mouse_pos_on_click
                        },
                        ..moved
                    },
                    MouseButton::Middle => InputHandler {
                        mouse_middle: KeyState {
                            click: !s.mouse_middle.pressed || s.mouse_middle.click,
                            pressed: true,
                            ..s.mouse_middle
                        },
                        ..moved
                    },
                    MouseButton::Right => InputHandler {
                        mouse_right: KeyState {
                            click: !s.mouse_right.pressed || s.mouse_right.click,
                            pressed: true,
                            ..s.mouse_right
                        },
                        ..moved
                    },
                    MouseButton::Unknown => moved,
                }
            },
            MouseEvent::ButtonRelease { x, y, btn } => {
                let pos = Vector2 {
                    x: spec_clamped_mouse(x as int, SCREEN_WIDTH as int),
                    y: spec_clamped_mouse(y as int, SCREEN_HEIGHT as int),
                };
                let moved = InputHandler { mouse_pos_last: s.mouse_pos, mouse_pos: pos, ..s };
                match btn {
                    MouseButton::Left => InputHandler {
                        mouse_left: KeyState {
                            released: s.mouse_left.pressed || s.mouse_left.released,
                            pressed: false,
                            ..s.mouse_left
                        },
                        ..moved
                    },
                    MouseButton::Middle => InputHandler {
                        mouse_middle: KeyState {
                            released: s.mouse_middle.pressed || s.mouse_middle.released,
                            pressed: false,
                            ..s.mouse_middle
                        },
                        ..moved
                    },
                    MouseButton::Right => InputHandler {
                        mouse_right: KeyState {
                            released: s.mouse_right.pressed || s.mouse_right.released,
                            pressed: false,
                            ..s.mouse_right
                        },
                        ..moved
                    },
                    MouseButton::Unknown => moved,
                }
            },
            MouseEvent::NewPosition { x, y } => InputHandler {
                mouse_pos_last: s.mouse_pos,
                mouse_pos: Vector2 {
                    x: spec_clamped_mouse(x as int, SCREEN_WIDTH as int),
                    y: spec_clamped_mouse(y as int, SCREEN_HEIGHT as int),
                },
                ..s
            },
            MouseEvent::WheelScroll { y } => InputHandler { scroll_y: y, ..s },
        }
    }

    pub fn new() -> (s: InputHandler)
        ensures
            s == InputHandler::spec_initial(),
    {
        InputHandler {
            up: KeyState::new(),
            down: KeyState::new(),
            left: KeyState::new(),
            right: KeyState::new(),
            space: KeyState::new(),
            shift: KeyState::new(),
            w: KeyState::new(),
            a: KeyState::new(),
            s: KeyState::new(),
            d: KeyState::new(),
            mouse_left: KeyState::new(),
            mouse_middle: KeyState::new(),
            mouse_right: KeyState::new(),
            mouse_pos: Vector2::new(Fx { raw: 0 }, Fx { raw: 0 }),
            mouse_pos_last: Vector2::new(Fx { raw: 0 }, Fx { raw: 0 }),
            mouse_delta: Vector2::new(Fx { raw: 0 }, Fx { raw: 0 }),
            mouse_pos_on_click: Vector2::new(Fx { raw: 0 }, Fx { raw: 0 }),
            scroll_y: 0,
        }
    }

    /// Start a frame: transient click, release and scroll flags fall, and
    /// the mouse delta is derived from the last two positions.
    pub fn new_frame(&mut self)
        ensures
            *final(self) == (InputHandler {
                mouse_left: KeyState { click: false, released: false, ..old(self).mouse_left },
                mouse_right: KeyState { click: false, released: false, ..old(self).mouse_right },
                mouse_middle: KeyState {
                    click: false,
                    released: false,
                    ..old(self).mouse_middle
                },
                mouse_delta: Vector2 {
                    x: fx(
                        fx_sub(
                            old(self).mouse_pos.x.raw as int,
                            old(self).mouse_pos_last.x.raw as int,
                        ),
                    ),
                    y: fx(
                        fx_sub(
                            old(self).mouse_pos.y.raw as int,
                            old(self).mouse_pos_last.y.raw as int,
                        ),
                    ),
                },
                scroll_y: 0,
                ..*old(self)
            }),
    {
        self.mouse_left.click = false;
        self.mouse_right.click = false;
        self.mouse_middle.click = false;
        self.mouse_left.released = false;
        self.mouse_right.released = false;
        self.mouse_middle.released = false;
        self.mouse_delta.x = self.mouse_pos.x.sub(self.mouse_pos_last.x);
        self.mouse_delta.y = self.mouse_pos.y.sub(self.mouse_pos_last.y);
        self.scroll_y = 0;
    }

    pub fn handle_key_event(&mut self, key_ev: &KeyEvent)
        ensures
            *final(self) == InputHandler::spec_after_key(*old(self), *key_ev),
    {
        let (key, state) = match key_ev {
            KeyEvent::Pressed { key } => (*key, true),
            KeyEvent::Released { key } => (*key, false),
        };
        match key {
            KeyCode::Up => self.up.pressed = state,
            KeyCode::Down => self.down.pressed = state,
            KeyCode::Left => self.left.pressed = state,
            KeyCode::Right => self.right.pressed = state,
            KeyCode::Space => self.space.pressed = state,
            KeyCode::LShift => self.shift.pressed = state,
            KeyCode::W => self.w.pressed = state,
            KeyCode::S => self.s.pressed = state,
            KeyCode::A => self.a.pressed = state,
            KeyCode::D => self.d.pressed = state,
            _ => {},
        }
    }

    pub fn handle_mouse_event(&mut self, mouse_ev: &MouseEvent)
        ensures
            *final(self) == InputHandler::spec_after_mouse(*old(self), *mouse_ev),
    {
        match mouse_ev {
            MouseEvent::ButtonDown { x, y, btn } => {
                self.mouse_pos_last.x = self.mouse_pos.x;
                self.mouse_pos_last.y = self.mouse_pos.y;
                self.mouse_pos.x = clamped_mouse(*x, SCREEN_WIDTH as u32);
                self.mouse_pos.y = clamped_mouse(*y, SCREEN_HEIGHT as u32);
                match btn {
                    MouseButton::Left => {
                        if !self.mouse_left.pressed {
                            self.mouse_left.click = true;
                            self.mouse_pos_on_click.x = self.mouse_pos.x;
                            self.mouse_pos_on_click.y = self.mouse_pos.y;
                        }
                        self.mouse_left.pressed = true;
                    },
                    MouseButton::Middle => {
                        if !self.mouse_middle.pressed {
                            self.mouse_middle.click = true;
                        }
                        self.mouse_middle.pressed = true;
                    },
                    MouseButton::Right => {
                        if !self.mouse_right.pressed {
                            self.mouse_right.click = true;
                        }
                        self.mouse_right.pressed = true;
                    },
                    MouseButton::Unknown => {},
                }
            },
            MouseEvent::ButtonRelease { x, y, btn } => {
                self.mouse_pos_last.x = self.mouse_pos.x;
                self.mouse_pos_last.y = self.mouse_pos.y;
                self.mouse_pos.x = clamped_mouse(*x, SCREEN_WIDTH as u32);
                self.mouse_pos.y = clamped_mouse(*y, SCREEN_HEIGHT as u32);
                match btn {
                    MouseButton::Left => {
                        if self.mouse_left.pressed {
                            self.mouse_left.released = true;
                        }
                        self.mouse_left.pressed = false;
                    },
                    MouseButton::Middle => {
                        if self.mouse_middle.pressed {
                            self.mouse_middle.released = true;
                        }
                        self.mouse_middle.pressed = false;
                    },
                    MouseButton::Right => {
                        if self.mouse_right.pressed {
                            self.mouse_right.released = true;
                        }
                        self.mouse_right.pressed = false;
                    },
                    MouseButton::Unknown => {},
                }
            },
            MouseEvent::NewPosition { x, y } => {
                self.mouse_pos_last.x = self.mouse_pos.x;
                self.mouse_pos_last.y = self.mouse_pos.y;
                self.mouse_pos.x = clamped_mouse(*x, SCREEN_WIDTH as u32);
                self.mouse_pos.y = clamped_mouse(*y, SCREEN_HEIGHT as u32);
            },
            MouseEvent::WheelScroll { y } => {
                self.scroll_y = *y;
            },
        }
    }
}

/// A mouse coordinate clamped into the screen, at fixed scale.
fn clamped_mouse(v: u32, limit: u32) -> (r: Fx)
    ensures
        r == spec_clamped_mouse(v as int, limit as int),
{
    let c = if v > limit {
        limit
    } else {
        v
    };
    Fx::from_int(c as i64)
}

} // verus!
