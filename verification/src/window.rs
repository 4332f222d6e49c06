//! The interface a windowing backend implements: it owns the event loop and
//! drives a game against a screen.  Implementations live outside the
//! verified core.

use crate::game::Game;
use crate::screen::Screen;
use vstd::prelude::*;

verus! {

pub trait Window {
    fn start<G: Game>(&self, screen: &mut Screen, game: &mut G);
}

} // verus!
