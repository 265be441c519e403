//! The pipes: their scroll and their removal once off screen.

use vstd::prelude::*;
use crate::units::{add_clamped, clamp, travel, travelled, PIPE_SCROLL, PIPE_WIDTH, VIRTUAL_WIDTH};

verus! {

/// One pipe of a pair.
#[derive(Clone, Copy, Debug, PartialEq, Eq, Structural)]
pub struct Pipe {
    /// Whether the bird's passing of this pipe has been counted.
    pub is_scored: bool,
    /// Horizontal position of the pipe's centre.
    pub x: i64,
    /// Vertical position of the pipe's centre.
    pub y: i64,
    /// Whether the pipe is drawn turned by half a turn, as the upper pipe of a pair is.
    pub flipped: bool,
}

/// The pipe `p` scrolled for `dt` microseconds.
pub open spec fn shifted(p: Pipe, dt: u32) -> Pipe {
    Pipe {
        is_scored: p.is_scored,
        x: clamp(p.x + travel(PIPE_SCROLL as int, dt)) as i64,
        y: p.y,
        flipped: p.flipped,
    }
}

/// The position left of which a pipe is no longer visible.
pub open spec fn left_limit() -> int {
    -(VIRTUAL_WIDTH / 2) - PIPE_WIDTH
}

/// Whether the pipe `p` is kept: it has not passed the left limit.
pub open spec fn in_play(p: Pipe) -> bool {
    p.x >= left_limit()
}

/// [`shifted`] by `dt`, as a function of the pipe.
pub open spec fn shift_by(dt: u32) -> spec_fn(Pipe) -> Pipe {
    |p: Pipe| shifted(p, dt)
}

/// [`in_play`] as a predicate.
pub open spec fn is_in_play() -> spec_fn(Pipe) -> bool {
    |p: Pipe| in_play(p)
}

/// The pipes that remain of `pipes` after `dt` microseconds: each one
/// scrolled, those past the left limit dropped, the others in their order.
pub open spec fn remaining(pipes: Seq<Pipe>, dt: u32) -> Seq<Pipe> {
    pipes.map_values(shift_by(dt)).filter(is_in_play())
}

impl Pipe {
    /// A pipe centred at `(x, y)` that has not been counted.
    pub fn new(x: i64, y: i64, flipped: bool) -> (p: Pipe)
        ensures
            p == (Pipe { is_scored: false, x, y, flipped }),
    {
        Pipe { is_scored: false, x, y, flipped }
    }

    /// Scrolls the pipe for `dt` microseconds; returns whether it is kept.
    pub fn advance(&mut self, dt: u32) -> (kept: bool)
        ensures
            *final(self) == shifted(*old(self), dt),
            kept == in_play(*final(self)),
    {
        self.x = add_clamped(self.x, travelled(PIPE_SCROLL, dt));
        !(self.x < VIRTUAL_WIDTH / -2 - PIPE_WIDTH)
    }
}

/// The frame rule of the pipes.
pub struct PipeSystem;

impl PipeSystem {
    /// Scrolls every pipe for `dt` microseconds and removes, at once, those
    /// that have passed the left limit.
    pub fn run(pipes: &mut Vec<Pipe>, dt: u32)
        ensures
            final(pipes)@ == remaining(old(pipes)@, dt),
    {
        let n = pipes.len();
        let mut kept: Vec<Pipe> = Vec::new();
        let mut i: usize = 0;
        assert(pipes@.take(0) =~= Seq::<Pipe>::empty());
        assert(remaining(Seq::<Pipe>::empty(), dt) =~= Seq::<Pipe>::empty()) by {
            reveal(Seq::filter);
        }
        while i < n
            invariant
                i <= n,
                pipes@.len() == n,
                *pipes == *old(pipes),
                kept@ == remaining(pipes@.take(i as int), dt),
            decreases n - i,
        {
            let mut p = pipes[i];
            let stays = p.advance(dt);
            proof {
                let before = pipes@.take(i as int);
                assert(pipes@.take(i + 1) =~= before.push(pipes@[i as int]));
                before.lemma_push_map_commute(shift_by(dt), pipes@[i as int]);
                before.map_values(shift_by(dt)).lemma_filter_push(p, is_in_play());
            }
            if stays {
                kept.push(p);
            }
            i += 1;
        }
        assert(pipes@.take(n as int) =~= pipes@);
        *pipes = kept;
    }
}

} // verus!
