//! The pipe spawner: a countdown, and a pair of pipes around a random gap.

use vstd::prelude::*;
use rand::rngs::ThreadRng;
use rand::Rng;
use crate::pipe::Pipe;
use crate::units::{add_clamped, clamp, PIPE_GAP, PIPE_WIDTH, VIRTUAL_HEIGHT, VIRTUAL_WIDTH};

verus! {

/// `rand::rngs::ThreadRng`, the generator of the thread's random numbers.
/// Nothing is known of what it holds; it is only handed on to
/// `rand::Rng::gen_range`.
#[verifier::external_type_specification]
#[verifier::external_body]
pub struct ExThreadRng(ThreadRng);

/// Lowest offset of a gap's centre from the playfield's centre.
pub const GAP_MIN: i64 = -40_000_000;

/// The lower end of the range for a gap's offset is drawn from `GAP_MIN`
/// up to, but not including, this.
pub const GAP_LOW_END: i64 = -20_000_000;

/// The upper end of the range for a gap's offset is drawn from this up to,
/// but not including, `GAP_MAX`.
pub const GAP_HIGH_START: i64 = 20_000_000;

/// The offset of a gap's centre stays below this.
pub const GAP_MAX: i64 = 40_000_000;

/// Time before the first pair of a session, and the shortest time between pairs.
pub const SPAWN_MIN: i64 = 2_000_000;

/// The time between pairs stays below this.
pub const SPAWN_MAX: i64 = 4_000_000;

/// Where new pipes appear: one pipe's width right of the playfield.
pub const SPAWN_X: i64 = 326_000_000;

/// The random choices made when a pair of pipes is spawned.
#[derive(Clone, Copy, Debug, PartialEq, Eq, Structural)]
pub struct SpawnDraw {
    /// Offset of the gap's centre from the playfield's centre.
    pub gap: i64,
    /// Time until the next pair, in microseconds.
    pub interval: i64,
}

impl SpawnDraw {
    /// Both choices lie in the ranges they are drawn from.
    pub open spec fn wf(&self) -> bool {
        &&& GAP_MIN <= self.gap < GAP_MAX
        &&& SPAWN_MIN <= self.interval < SPAWN_MAX
    }
}

/// The lower pipe of the pair around a gap at offset `gap`: upright, its
/// top edge half a gap below the gap's centre.
pub open spec fn lower_pipe(gap: i64) -> Pipe {
    Pipe {
        is_scored: false,
        x: SPAWN_X,
        y: clamp(-(VIRTUAL_HEIGHT / 2) + gap - PIPE_GAP / 2) as i64,
        flipped: false,
    }
}

/// The upper pipe of the pair around a gap at offset `gap`: turned by half
/// a turn, its bottom edge half a gap above the gap's centre.
pub open spec fn upper_pipe(gap: i64) -> Pipe {
    Pipe {
        is_scored: false,
        x: SPAWN_X,
        y: clamp(VIRTUAL_HEIGHT / 2 + gap + PIPE_GAP / 2) as i64,
        flipped: true,
    }
}

/// `pipes` with a new pair around a gap at offset `gap`.
pub open spec fn with_pair(pipes: Seq<Pipe>, gap: i64) -> Seq<Pipe> {
    pipes.push(lower_pipe(gap)).push(upper_pipe(gap))
}

/// Whether a countdown at `timer` runs out within `dt` microseconds.
pub open spec fn runs_out(timer: Option<i64>, dt: u32) -> bool {
    match timer {
        Some(t) => t - dt <= 0,
        None => false,
    }
}

/// The countdown after `dt` microseconds: restarted at `interval` where it
/// ran out, else `dt` lower. A countdown that was never started stays so.
pub open spec fn counted_down(timer: Option<i64>, dt: u32, interval: i64) -> Option<i64> {
    match timer {
        Some(t) => if t - dt <= 0 {
            Some(interval)
        } else {
            Some((t - dt) as i64)
        },
        None => None,
    }
}

/// Calls `rand::Rng::gen_range` on the thread's generator with the bounds
/// `low` and `high`. The call panics unless `low < high`; what it returns is
/// some value from `low` up to, but not including, `high`.
#[verifier::external_body]
fn gen_range(rng: &mut ThreadRng, low: i64, high: i64) -> (r: i64)
    requires
        low < high,
    ensures
        low <= r < high,
{
    rng.gen_range(low, high)
}

/// The spawner's rules.
pub struct Spawner;

impl Spawner {
    /// Draws the choices for one pair: a lower and an upper bound for the
    /// gap's offset, the offset between them, and the time to the next pair.
    pub fn draw(rng: &mut ThreadRng) -> (d: SpawnDraw)
        ensures
            d.wf(),
    {
        let rand_bot: i64 = gen_range(rng, GAP_MIN, GAP_LOW_END);
        let rand_top: i64 = gen_range(rng, GAP_HIGH_START, GAP_MAX);
        let gap: i64 = gen_range(rng, rand_bot, rand_top);
        let interval: i64 = gen_range(rng, SPAWN_MIN, SPAWN_MAX);
        SpawnDraw { gap, interval }
    }

    /// Decides [`runs_out`].
    pub fn timer_runs_out(timer: Option<i64>, dt: u32) -> (r: bool)
        ensures
            r == runs_out(timer, dt),
    {
        match timer {
            Some(t) => (t as i128) - (dt as i128) <= 0,
            None => false,
        }
    }

    /// Adds the pair of pipes around a gap at offset `gap`, the lower one first.
    pub fn spawn_pair(pipes: &mut Vec<Pipe>, gap: i64)
        ensures
            final(pipes)@ == with_pair(old(pipes)@, gap),
    {
        let low_y: i64 = add_clamped(gap, -VIRTUAL_HEIGHT / 2 - PIPE_GAP / 2);
        let high_y: i64 = add_clamped(gap, VIRTUAL_HEIGHT / 2 + PIPE_GAP / 2);
        pipes.push(Pipe { is_scored: false, x: VIRTUAL_WIDTH / 2 + PIPE_WIDTH, y: low_y, flipped: false });
        pipes.push(Pipe { is_scored: false, x: VIRTUAL_WIDTH / 2 + PIPE_WIDTH, y: high_y, flipped: true });
    }

    /// Lets `dt` microseconds pass on the countdown. Where it runs out, a
    /// pair of pipes is spawned around `draw.gap` and the countdown restarts
    /// at `draw.interval`; `draw` is not looked at otherwise. Returns whether
    /// it ran out.
    pub fn tick(timer: &mut Option<i64>, pipes: &mut Vec<Pipe>, dt: u32, draw: SpawnDraw) -> (spawned:
        bool)
        ensures
            spawned == runs_out(*old(timer), dt),
            *final(timer) == counted_down(*old(timer), dt, draw.interval),
            final(pipes)@ == (if spawned {
                with_pair(old(pipes)@, draw.gap)
            } else {
                old(pipes)@
            }),
    {
        match *timer {
            Some(t) => {
                let left: i128 = (t as i128) - (dt as i128);
                if left <= 0 {
                    Self::spawn_pair(pipes, draw.gap);
                    *timer = Some(draw.interval);
                    true
                } else {
                    *timer = Some(left as i64);
                    false
                }
            },
            None => false,
        }
    }
}

} // verus!
