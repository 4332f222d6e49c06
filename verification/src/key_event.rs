//! Keyboard events and the per-key state the input handler keeps.

use crate::keycode::KeyCode;
use vstd::prelude::*;

verus! {

#[derive(Debug, Clone, Copy, PartialEq, Eq, Structural)]
pub enum KeyEvent {
    Pressed { key: KeyCode },
    Released { key: KeyCode },
}

/// The state of one key or mouse button across a frame.
#[derive(Debug, Clone, Copy, PartialEq, Eq, Structural)]
pub struct KeyState {
    pub click: bool,
    pub pressed: bool,
    pub released: bool,
}

impl KeyState {
    pub fn new() -> (s: KeyState)
        ensures
            s == (KeyState { click: false, pressed: false, released: false }),
    {
        KeyState { click: false, pressed: false, released: false }
    }
}

} // verus!
