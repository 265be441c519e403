//! A fixed-point simulation core for a side-scrolling bird-and-pipes arcade game.
//!
//! Lengths are counted in millionths of a pixel and time in microseconds, so
//! that a speed in pixels per second times a duration in microseconds is a
//! length in these units with no rounding. Every frame rule, the collision
//! test, the obstacle spawner, the score tracker and the phase state machine
//! are stated over these integers and proved against their contracts.

pub mod units;
pub mod event;
pub mod background;
pub mod bird;
pub mod pipe;
pub mod collision;
pub mod text;
pub mod score;
pub mod world;
pub mod spawn;
pub mod state;
pub mod game;
pub mod laws;

pub use event::{GameEvent, MyStateEvent, WindowEvent};
