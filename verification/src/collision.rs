//! The collision test of the bird against pipes, ground and boundary.
//!
//! The bird is tested as a point: each rectangle is first widened by half the
//! bird's width and height on every side.

use vstd::prelude::*;
use crate::background::{Background, BackgroundType};
use crate::bird::Bird;
use crate::event::GameEvent;
use crate::pipe::Pipe;
use crate::units::{
    BIRD_HEIGHT, BIRD_WIDTH, GROUND_HEIGHT, GROUND_WIDTH, PIPE_HEIGHT, PIPE_WIDTH, VIRTUAL_HEIGHT,
};

verus! {

/// Whether the point `(x, y)` lies in the rectangle with the given edges,
/// the edges included.
pub open spec fn in_rect(x: int, y: int, left: int, bottom: int, right: int, top: int) -> bool {
    x >= left && x <= right && y >= bottom && y <= top
}

/// Decides [`in_rect`].
pub fn point_in_rect(x: i128, y: i128, left: i128, bottom: i128, right: i128, top: i128) -> (hit: bool)
    ensures
        hit == in_rect(x as int, y as int, left as int, bottom as int, right as int, top as int),
{
    x >= left && x <= right && y >= bottom && y <= top
}

/// Whether the bird touches the rectangle of the given size centred at `(cx, cy)`.
pub open spec fn touches(bird: Bird, cx: int, cy: int, width: int, height: int) -> bool {
    let left = cx - width / 2;
    let bottom = cy - height / 2;
    in_rect(
        bird.x as int,
        bird.y as int,
        left - BIRD_WIDTH / 2,
        bottom - BIRD_HEIGHT / 2,
        left + width + BIRD_WIDTH / 2,
        bottom + height + BIRD_HEIGHT / 2,
    )
}

/// Whether the bird touches the pipe `p`.
pub open spec fn hits_pipe(bird: Bird, p: Pipe) -> bool {
    touches(bird, p.x as int, p.y as int, PIPE_WIDTH as int, PIPE_HEIGHT as int)
}

/// Whether the layer `b` is the ground and the bird touches it.
pub open spec fn hits_ground(bird: Bird, b: Background) -> bool {
    b.b_type == BackgroundType::Ground && touches(
        bird,
        b.x as int,
        b.y as int,
        GROUND_WIDTH as int,
        GROUND_HEIGHT as int,
    )
}

/// Whether the bird has fallen below the bottom of the playfield.
pub open spec fn below_playfield(bird: Bird) -> bool {
    bird.y + BIRD_WIDTH / 2 < -(VIRTUAL_HEIGHT / 2)
}

/// [`hits_pipe`] for a fixed bird, as a predicate on pipes.
pub open spec fn pipe_hit_by(bird: Bird) -> spec_fn(Pipe) -> bool {
    |p: Pipe| hits_pipe(bird, p)
}

/// [`hits_ground`] for a fixed bird, as a predicate on layers.
pub open spec fn ground_hit_by(bird: Bird) -> spec_fn(Background) -> bool {
    |b: Background| hits_ground(bird, b)
}

/// How many collisions one frame reports: one for the boundary, one for each
/// pipe and one for each ground layer that the bird touches; none without a bird.
pub open spec fn collision_count(
    bird: Option<Bird>,
    pipes: Seq<Pipe>,
    backgrounds: Seq<Background>,
) -> nat {
    match bird {
        None => 0,
        Some(b) => (if below_playfield(b) {
            1nat
        } else {
            0nat
        }) + pipes.filter(pipe_hit_by(b)).len() + backgrounds.filter(ground_hit_by(b)).len(),
    }
}

/// `n` collision events.
pub open spec fn collisions(n: nat) -> Seq<GameEvent> {
    Seq::new(n, |i: int| GameEvent::Collision)
}

fn touches_rect(bird: &Bird, cx: i64, cy: i64, width: i64, height: i64) -> (hit: bool)
    requires
        0 <= width <= 2_000_000_000,
        0 <= height <= 2_000_000_000,
    ensures
        hit == touches(*bird, cx as int, cy as int, width as int, height as int),
{
    let left: i128 = cx as i128 - (width / 2) as i128;
    let bottom: i128 = cy as i128 - (height / 2) as i128;
    point_in_rect(
        bird.x as i128,
        bird.y as i128,
        left - (BIRD_WIDTH / 2) as i128,
        bottom - (BIRD_HEIGHT / 2) as i128,
        left + width as i128 + (BIRD_WIDTH / 2) as i128,
        bottom + height as i128 + (BIRD_HEIGHT / 2) as i128,
    )
}

/// The frame rule that detects collisions.
pub struct CollisionSystem;

impl CollisionSystem {
    /// Decides [`hits_pipe`].
    pub fn bird_hits_pipe(bird: &Bird, p: &Pipe) -> (hit: bool)
        ensures
            hit == hits_pipe(*bird, *p),
    {
        touches_rect(bird, p.x, p.y, PIPE_WIDTH, PIPE_HEIGHT)
    }

    /// Decides [`hits_ground`].
    pub fn bird_hits_ground(bird: &Bird, b: &Background) -> (hit: bool)
        ensures
            hit == hits_ground(*bird, *b),
    {
        match b.b_type {
            BackgroundType::Background => false,
            BackgroundType::Ground => touches_rect(bird, b.x, b.y, GROUND_WIDTH, GROUND_HEIGHT),
        }
    }

    /// Decides [`below_playfield`].
    pub fn bird_below_playfield(bird: &Bird) -> (below: bool)
        ensures
            below == below_playfield(*bird),
    {
        (bird.y as i128) + ((BIRD_WIDTH / 2) as i128) < -((VIRTUAL_HEIGHT / 2) as i128)
    }

    /// Reports the collisions of this frame, one event for each. Reads the
    /// positions and changes nothing.
    pub fn run(bird: &Option<Bird>, pipes: &Vec<Pipe>, backgrounds: &Vec<Background>) -> (events:
        Vec<GameEvent>)
        ensures
            events@ == collisions(collision_count(*bird, pipes@, backgrounds@)),
    {
        let mut events: Vec<GameEvent> = Vec::new();
        let b = match bird {
            Some(b) => b,
            None => {
                assert(events@ =~= collisions(0));
                return events;
            },
        };
        if Self::bird_below_playfield(b) {
            events.push(GameEvent::Collision);
        }
        let ghost base = events@.len();
        let n = pipes.len();
        let mut i: usize = 0;
        assert(pipes@.take(0).filter(pipe_hit_by(*b)).len() == 0) by {
            pipes@.take(0).lemma_filter_len(pipe_hit_by(*b));
        }
        while i < n
            invariant
                i <= n,
                n == pipes@.len(),
                events@.len() == base + pipes@.take(i as int).filter(pipe_hit_by(*b)).len(),
            decreases n - i,
        {
            proof {
                assert(pipes@.take(i + 1) =~= pipes@.take(i as int).push(pipes@[i as int]));
                pipes@.take(i as int).lemma_filter_len_push(pipe_hit_by(*b), pipes@[i as int]);
            }
            if Self::bird_hits_pipe(b, &pipes[i]) {
                events.push(GameEvent::Collision);
            }
            i += 1;
        }
        assert(pipes@.take(n as int) =~= pipes@);
        let ghost mid = events@.len();
        let m = backgrounds.len();
        let mut j: usize = 0;
        assert(backgrounds@.take(0).filter(ground_hit_by(*b)).len() == 0) by {
            backgrounds@.take(0).lemma_filter_len(ground_hit_by(*b));
        }
        while j < m
            invariant
                j <= m,
                m == backgrounds@.len(),
                events@.len() == mid + backgrounds@.take(j as int).filter(ground_hit_by(*b)).len(),
            decreases m - j,
        {
            proof {
                assert(backgrounds@.take(j + 1) =~= backgrounds@.take(j as int).push(
                    backgrounds@[j as int],
                ));
                backgrounds@.take(j as int).lemma_filter_len_push(
                    ground_hit_by(*b),
                    backgrounds@[j as int],
                );
            }
            if Self::bird_hits_ground(b, &backgrounds[j]) {
                events.push(GameEvent::Collision);
            }
            j += 1;
        }
        assert(backgrounds@.take(m as int) =~= backgrounds@);
        assert(events@ =~= collisions(collision_count(*bird, pipes@, backgrounds@)));
        events
    }
}

} // verus!
