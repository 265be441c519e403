//! The player's bird: gravity, the jump impulse and the jump key's edge.

use vstd::prelude::*;
use crate::units::{add_clamped, clamp, travel, travelled, BIRD_GRAVITY, BIRD_JUMP};

verus! {

/// The bird.
#[derive(Clone, Copy, Debug, PartialEq, Eq, Structural)]
pub struct Bird {
    /// The displacement applied to `y` on every frame.
    pub dy: i64,
    /// Pipe pairs passed in this session.
    pub score: u32,
    /// Whether the jump key was held on the previous frame.
    pub fly_pressed: bool,
    /// Horizontal position of the bird's centre.
    pub x: i64,
    /// Vertical position of the bird's centre.
    pub y: i64,
}

/// The bird as a session starts: at rest at the origin, with no score.
pub open spec fn fresh_bird() -> Bird {
    Bird { dy: 0, score: 0, fly_pressed: false, x: 0, y: 0 }
}

/// Whether a frame on which the jump key is held (`space_pressed`) starts a
/// jump: only when the key was up on the frame before.
pub open spec fn jumps(b: Bird, space_pressed: bool) -> bool {
    space_pressed && !b.fly_pressed
}

/// The bird after one frame of `dt` microseconds. Gravity changes the
/// displacement, a jump replaces it, and the displacement is then added to
/// `y` as it is, not scaled by `dt` again.
pub open spec fn flown(b: Bird, dt: u32, space_pressed: bool) -> Bird {
    let dy = if jumps(b, space_pressed) {
        BIRD_JUMP as int
    } else {
        clamp(b.dy + travel(BIRD_GRAVITY as int, dt))
    };
    Bird {
        dy: dy as i64,
        score: b.score,
        fly_pressed: space_pressed,
        x: b.x,
        y: clamp(b.y + dy) as i64,
    }
}

impl Default for Bird {
    /// A bird at rest at the origin.
    fn default() -> (b: Bird)
        ensures
            b == fresh_bird(),
    {
        Bird { dy: 0, score: 0, fly_pressed: false, x: 0, y: 0 }
    }
}

impl Bird {
    /// A bird at rest at the origin.
    pub fn new() -> (b: Bird)
        ensures
            b == fresh_bird(),
    {
        Bird { dy: 0, score: 0, fly_pressed: false, x: 0, y: 0 }
    }

    /// Advances the bird by one frame; returns whether it jumped.
    pub fn step(&mut self, dt: u32, space_pressed: bool) -> (jumped: bool)
        ensures
            *final(self) == flown(*old(self), dt, space_pressed),
            jumped == jumps(*old(self), space_pressed),
    {
        self.dy = add_clamped(self.dy, travelled(BIRD_GRAVITY, dt));
        let jumped = space_pressed && !self.fly_pressed;
        if jumped {
            self.dy = BIRD_JUMP;
        }
        self.fly_pressed = space_pressed;
        self.y = add_clamped(self.y, self.dy);
        jumped
    }
}

/// The frame rule of the bird.
pub struct BirdSystem;

impl BirdSystem {
    /// Advances the bird, if there is one, by one frame of `dt`
    /// microseconds; returns whether it jumped.
    pub fn run(bird: &mut Option<Bird>, dt: u32, space_pressed: bool) -> (jumped: bool)
        ensures
            *final(bird) == (match *old(bird) {
                Some(b) => Some(flown(b, dt, space_pressed)),
                None => None,
            }),
            jumped == (match *old(bird) {
                Some(b) => jumps(b, space_pressed),
                None => false,
            }),
    {
        match bird {
            Some(b) => b.step(dt, space_pressed),
            None => false,
        }
    }
}

} // verus!
