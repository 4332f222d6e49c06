//! Mouse events as the input layer reports them.

use crate::mouse_button::MouseButton;
use vstd::prelude::*;

verus! {

#[derive(Debug, Clone, Copy, PartialEq, Eq, Structural)]
pub enum MouseEvent {
    ButtonDown { x: u32, y: u32, btn: MouseButton },
    ButtonRelease { x: u32, y: u32, btn: MouseButton },
    NewPosition { x: u32, y: u32 },
    WheelScroll { y: i32 },
}

} // verus!
