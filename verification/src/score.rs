//! The score tracker.

use vstd::prelude::*;
use crate::bird::Bird;
use crate::pipe::Pipe;
use crate::text::{decimal, number_text, text_of};
use crate::units::{PIPE_HEIGHT, PIPE_WIDTH};

verus! {

/// Whether a bird at `bird_x` earns a point for the pipe `p`: the pipe has
/// not been counted, its right edge is left of the bird, and its top edge is
/// below the playfield's centre, which holds of the lower pipe of a pair only.
pub open spec fn earns(p: Pipe, bird_x: int) -> bool {
    !p.is_scored && p.x + PIPE_WIDTH / 2 < bird_x && p.y + PIPE_HEIGHT / 2 < 0
}

/// The pipe `p` once a bird at `bird_x` has been given its point, if it earned one.
pub open spec fn counted(p: Pipe, bird_x: int) -> Pipe {
    if earns(p, bird_x) {
        Pipe { is_scored: true, x: p.x, y: p.y, flipped: p.flipped }
    } else {
        p
    }
}

/// [`earns`] for a fixed bird position, as a predicate on pipes.
pub open spec fn earned_at(bird_x: int) -> spec_fn(Pipe) -> bool {
    |p: Pipe| earns(p, bird_x)
}

/// [`counted`] for a fixed bird position, as a function of the pipe.
pub open spec fn counted_at(bird_x: int) -> spec_fn(Pipe) -> Pipe {
    |p: Pipe| counted(p, bird_x)
}

/// The points that a bird at `bird_x` earns from `pipes` in one frame.
pub open spec fn points(pipes: Seq<Pipe>, bird_x: int) -> nat {
    pipes.filter(earned_at(bird_x)).len()
}

/// `score` raised by `gain`, held to the range of `u32`.
pub open spec fn raised(score: u32, gain: nat) -> u32 {
    if score + gain > u32::MAX {
        u32::MAX
    } else {
        (score + gain) as u32
    }
}

/// The bird `b` with the points of this frame added to its score.
pub open spec fn rewarded(b: Bird, pipes: Seq<Pipe>) -> Bird {
    Bird {
        dy: b.dy,
        score: raised(b.score, points(pipes, b.x as int)),
        fly_pressed: b.fly_pressed,
        x: b.x,
        y: b.y,
    }
}

/// What the score display reads after a frame in which `given` points were
/// given and the score became `score`: the new score where a point was given
/// and there is a display, else what it read before.
pub open spec fn shown(display: Option<Seq<char>>, given: nat, score: u32) -> Option<Seq<char>> {
    if given > 0 && display is Some {
        Some(decimal(score as nat))
    } else {
        display
    }
}

/// The frame rule that keeps the score.
pub struct ScoreSystem;

impl ScoreSystem {
    /// Decides [`earns`].
    pub fn bird_earns(p: &Pipe, bird_x: i64) -> (r: bool)
        ensures
            r == earns(*p, bird_x as int),
    {
        !p.is_scored && (p.x as i128) + ((PIPE_WIDTH / 2) as i128) < bird_x as i128 && (p.y as i128)
            + ((PIPE_HEIGHT / 2) as i128) < 0
    }

    /// Gives the bird one point for each pipe that earns it one and marks
    /// that pipe as counted, so that no pipe is counted twice. Where a point
    /// was given and a score display exists, the display shows the new score.
    /// Returns the number of points given. Without a bird nothing changes.
    pub fn run(bird: &mut Option<Bird>, pipes: &mut Vec<Pipe>, display: &mut Option<String>) -> (given:
        usize)
        ensures
            match *old(bird) {
                None => {
                    &&& given == 0
                    &&& *final(bird) == *old(bird)
                    &&& final(pipes)@ == old(pipes)@
                    &&& text_of(*final(display)) == text_of(*old(display))
                },
                Some(b) => {
                    &&& given == points(old(pipes)@, b.x as int)
                    &&& *final(bird) == Some(rewarded(b, old(pipes)@))
                    &&& final(pipes)@ == old(pipes)@.map_values(counted_at(b.x as int))
                    &&& text_of(*final(display)) == shown(
                        text_of(*old(display)),
                        given as nat,
                        rewarded(b, old(pipes)@).score,
                    )
                },
            },
    {
        let mut b = match bird {
            Some(b) => *b,
            None => {
                return 0;
            },
        };
        let ghost start = b;
        let n = pipes.len();
        let mut given: usize = 0;
        let mut i: usize = 0;
        assert(points(pipes@.take(0), b.x as int) == 0) by {
            pipes@.take(0).lemma_filter_len(earned_at(b.x as int));
        }
        while i < n
            invariant
                i <= n,
                given <= i,
                pipes@.len() == n,
                old(pipes)@.len() == n,
                given == points(old(pipes)@.take(i as int), start.x as int),
                b == (Bird { score: raised(start.score, given as nat), ..start }),
                forall|j: int|
                    0 <= j < i ==> #[trigger] pipes@[j] == counted(old(pipes)@[j], start.x as int),
                forall|j: int| i <= j < n ==> #[trigger] pipes@[j] == old(pipes)@[j],
            decreases n - i,
        {
            proof {
                assert(old(pipes)@.take(i + 1) =~= old(pipes)@.take(i as int).push(
                    old(pipes)@[i as int],
                ));
                old(pipes)@.take(i as int).lemma_filter_len_push(
                    earned_at(start.x as int),
                    old(pipes)@[i as int],
                );
            }
            let mut p = pipes[i];
            if Self::bird_earns(&p, b.x) {
                p.is_scored = true;
                pipes.set(i, p);
                if b.score < u32::MAX {
                    b.score = b.score + 1;
                }
                given = given + 1;
            }
            i += 1;
        }
        assert(old(pipes)@.take(n as int) =~= old(pipes)@);
        assert(pipes@ =~= old(pipes)@.map_values(counted_at(start.x as int)));
        *bird = Some(b);
        if given > 0 && display.is_some() {
            *display = Some(number_text(b.score));
        }
        given
    }
}

} // verus!
