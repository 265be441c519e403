//! The events that the phase state machine reacts to.

use vstd::prelude::*;

verus! {

/// A signal raised by the simulation itself.
#[derive(Clone, Copy, Debug, PartialEq, Eq, Structural)]
pub enum GameEvent {
    /// The bird touched a pipe, the ground or the playfield's boundary.
    Collision,
}

/// What a state needs to know of one window event.
#[derive(Clone, Copy, Debug, PartialEq, Eq, Structural)]
pub struct WindowEvent {
    /// The window was asked to close.
    pub close_requested: bool,
    /// The event is a press of the escape key.
    pub escape_down: bool,
    /// The event is a press of the jump key.
    pub space_down: bool,
}

/// An event delivered to the active state.
#[derive(Clone, Copy, Debug, PartialEq, Eq, Structural)]
pub enum MyStateEvent {
    /// A window or keyboard event.
    Window(WindowEvent),
    /// An event of the user interface widgets; no state reacts to it.
    Ui,
    /// An event of the input bindings; no state reacts to it.
    Input,
    /// A signal raised by the simulation.
    Game(GameEvent),
}

} // verus!
