//! The interface a game implements to be driven by a window's event loop.
//! Implementations live with the window glue, outside the verified core, so
//! the methods carry no contracts.

use crate::key_event::KeyEvent;
use crate::mouse_event::MouseEvent;
use crate::screen::Screen;
use vstd::prelude::*;

verus! {

pub trait Game {
    fn update_tick(&mut self);

    fn render_tick(&self, screen: &mut Screen);

    fn key_event(&mut self, key_ev: &KeyEvent);

    fn mouse_event(&mut self, mouse_ev: &MouseEvent);
}

} // verus!
