//! What holds of the rules taken together.

use vstd::prelude::*;
use crate::background::{scrolled, Background};
use crate::bird::{flown, fresh_bird, jumps, Bird};
use crate::collision::{hits_pipe, in_rect};
use crate::event::{GameEvent, MyStateEvent};
use crate::game::{advanced, game_wf, handled, GameView};
use crate::pipe::{is_in_play, left_limit, remaining, shift_by, shifted, Pipe};
use crate::score::{counted, earned_at, earns, points, raised, rewarded};
use crate::spawn::{lower_pipe, runs_out, upper_pipe, with_pair, SpawnDraw, SPAWN_MIN};
use crate::state::{asks_jump, asks_quit, moved_pipes, with_final_score, GamePhase};
use crate::world::last_shown;
use crate::units::{
    travel, BACKGROUND_LOOPING_OFFSET, BACKGROUND_LOOPING_POINT, BIRD_HEIGHT, BIRD_JUMP,
    BIRD_WIDTH, PIPE_GAP, PIPE_HEIGHT, PIPE_SCROLL, PIPE_WIDTH, VIRTUAL_HEIGHT,
};

verus! {

/// Whatever a layer's offset was and however long the frame, the offset
/// lies within one period afterwards, and the layer's screen position is
/// the looping offset less the scroll offset.
pub proof fn law_scroll_wraps(b: Background, dt: u32)
    ensures
        0 <= scrolled(b, dt).scroll_pos < BACKGROUND_LOOPING_POINT,
        scrolled(b, dt).x == BACKGROUND_LOOPING_OFFSET - scrolled(b, dt).scroll_pos,
        scrolled(b, dt).b_type == b.b_type,
{
}

/// The points that a bird at `bird_x` earns from the two pipes `lo` and `hi` alone.
pub open spec fn pair_points(lo: Pipe, hi: Pipe, bird_x: int) -> nat {
    points(seq![lo, hi], bird_x)
}

proof fn lemma_pair_points(lo: Pipe, hi: Pipe, bird_x: int)
    ensures
        pair_points(lo, hi, bird_x) == (if earns(lo, bird_x) {
            1nat
        } else {
            0nat
        }) + (if earns(hi, bird_x) {
            1nat
        } else {
            0nat
        }),
{
    let none = Seq::<Pipe>::empty();
    none.lemma_filter_len(earned_at(bird_x));
    none.lemma_filter_len_push(earned_at(bird_x), lo);
    none.push(lo).lemma_filter_len_push(earned_at(bird_x), hi);
    assert(seq![lo, hi] =~= none.push(lo).push(hi));
}

/// A pair of pipes spawned around a gap within the spawner's range earns
/// the bird exactly one point once the bird has passed it: the lower pipe
/// is counted, the upper one is not, and neither earns a point on any later
/// frame, wherever pair and bird then are.
pub proof fn law_pair_scores_once(
    gap: i64,
    lo: Pipe,
    hi: Pipe,
    bird_x: i64,
    score: u32,
    later_x: i64,
    later_bird_x: i64,
)
    requires
        (SpawnDraw { gap, interval: 2_000_000 }).wf(),
        lo.y == lower_pipe(gap).y,
        hi.y == upper_pipe(gap).y,
        !lo.is_scored,
        !hi.is_scored,
        lo.x == hi.x,
        lo.x + PIPE_WIDTH / 2 < bird_x,
        score < u32::MAX,
    ensures
        pair_points(lo, hi, bird_x as int) == 1,
        raised(score, pair_points(lo, hi, bird_x as int)) == score + 1,
        counted(lo, bird_x as int).is_scored,
        !counted(hi, bird_x as int).is_scored,
        pair_points(
            Pipe { x: later_x, ..counted(lo, bird_x as int) },
            Pipe { x: later_x, ..counted(hi, bird_x as int) },
            later_bird_x as int,
        ) == 0,
{
    lemma_pair_points(lo, hi, bird_x as int);
    lemma_pair_points(
        Pipe { x: later_x, ..counted(lo, bird_x as int) },
        Pipe { x: later_x, ..counted(hi, bird_x as int) },
        later_bird_x as int,
    );
}

/// Until the bird has passed a pair of pipes, the pair earns it nothing.
pub proof fn law_pair_scores_nothing_before(lo: Pipe, hi: Pipe, bird_x: i64)
    requires
        lo.x == hi.x,
        lo.x + PIPE_WIDTH / 2 >= bird_x,
    ensures
        pair_points(lo, hi, bird_x as int) == 0,
{
    lemma_pair_points(lo, hi, bird_x as int);
}

/// A pipe moves only sideways, and counting it moves it not at all: its
/// height and its turn stay as the spawner set them.
pub proof fn law_pipe_moves_only_sideways(p: Pipe, dt: u32, bird_x: int)
    ensures
        shifted(p, dt).y == p.y,
        shifted(p, dt).flipped == p.flipped,
        shifted(p, dt).is_scored == p.is_scored,
        shifted(p, dt).x <= p.x,
        counted(p, bird_x).x == p.x,
        counted(p, bird_x).y == p.y,
        counted(p, bird_x).flipped == p.flipped,
{
    assert(travel(PIPE_SCROLL as int, dt) <= 0) by (nonlinear_arith)
        requires
            PIPE_SCROLL == -60,
            dt >= 0,
    {
    }
}

/// A pipe is counted at most once: once counted it stays counted, and it
/// earns no further point wherever it and the bird are.
pub proof fn law_counted_once(p: Pipe, bird_x: int, dt: u32, later_bird_x: int)
    requires
        earns(p, bird_x) || p.is_scored,
    ensures
        counted(p, bird_x).is_scored,
        shifted(counted(p, bird_x), dt).is_scored,
        !earns(shifted(counted(p, bird_x), dt), later_bird_x),
        counted(counted(p, bird_x), later_bird_x) == counted(p, bird_x),
{
}

/// The two pipes of a pair stand at the same place, one upright and one
/// turned, and for a gap within the spawner's range the upper one stands a
/// playfield's height and a gap's height above the lower one, so that the
/// opening between them is one gap high and centred on the gap's offset.
pub proof fn law_pair_is_mirrored(gap: i64)
    requires
        (SpawnDraw { gap, interval: 2_000_000 }).wf(),
    ensures
        lower_pipe(gap).x == upper_pipe(gap).x,
        !lower_pipe(gap).flipped,
        upper_pipe(gap).flipped,
        !lower_pipe(gap).is_scored,
        !upper_pipe(gap).is_scored,
        upper_pipe(gap).y - lower_pipe(gap).y == VIRTUAL_HEIGHT + PIPE_GAP,
        lower_pipe(gap).y + PIPE_HEIGHT / 2 == gap - PIPE_GAP / 2,
        upper_pipe(gap).y - PIPE_HEIGHT / 2 == gap + PIPE_GAP / 2,
{
}

/// A jump needs the key to go down: while the key stays held after a
/// frame, the next frame does not jump, and once it has been up for a
/// frame, the next frame with the key held does.
pub proof fn law_jump_needs_a_key_press(b: Bird, dt: u32, held: bool)
    ensures
        flown(b, dt, held).fly_pressed == held,
        !jumps(flown(b, dt, true), true),
        jumps(flown(b, dt, false), true),
        jumps(b, true) ==> flown(b, dt, true).dy == BIRD_JUMP,
{
}

/// The score never falls within a frame, and the bird moves only up and down.
pub proof fn law_score_never_falls(b: Bird, pipes: Seq<Pipe>, dt: u32, space_pressed: bool)
    ensures
        flown(b, dt, space_pressed).score == b.score,
        rewarded(b, pipes).score >= b.score,
        flown(b, dt, space_pressed).x == b.x,
        rewarded(b, pipes).x == b.x,
        rewarded(b, pipes).y == b.y,
{
}

/// A collision delivered a second time changes nothing: the game after two
/// deliveries is the game after one.
pub proof fn law_collision_idempotent(g: GameView)
    ensures
        handled(handled(g, MyStateEvent::Game(GameEvent::Collision)), MyStateEvent::Game(GameEvent::Collision))
            == handled(g, MyStateEvent::Game(GameEvent::Collision)),
        g.running && g.phase == GamePhase::Play ==> handled(
            g,
            MyStateEvent::Game(GameEvent::Collision),
        ).phase == GamePhase::Pause,
        !(g.running && g.phase == GamePhase::Play) ==> handled(
            g,
            MyStateEvent::Game(GameEvent::Collision),
        ) == g,
{
}

/// A point on an edge of a rectangle lies in it.
pub proof fn law_edge_collides(x: int, y: int, left: int, bottom: int, right: int, top: int)
    requires
        left <= x <= right,
        bottom <= y <= top,
        x == left || x == right || y == bottom || y == top,
    ensures
        in_rect(x, y, left, bottom, right, top),
{
}

/// A bird whose centre lies exactly on an edge of a pipe's rectangle,
/// widened by half the bird's size, touches the pipe; one unit further out
/// it does not.
pub proof fn law_pipe_edge_collides(bird: Bird, p: Pipe)
    requires
        p.y - PIPE_HEIGHT / 2 - BIRD_HEIGHT / 2 <= bird.y <= p.y + PIPE_HEIGHT / 2 + BIRD_HEIGHT / 2,
    ensures
        bird.x == p.x - PIPE_WIDTH / 2 - BIRD_WIDTH / 2 ==> hits_pipe(bird, p),
        bird.x == p.x + PIPE_WIDTH / 2 + BIRD_WIDTH / 2 ==> hits_pipe(bird, p),
        bird.x == p.x - PIPE_WIDTH / 2 - BIRD_WIDTH / 2 - 1 ==> !hits_pipe(bird, p),
        bird.x == p.x + PIPE_WIDTH / 2 + BIRD_WIDTH / 2 + 1 ==> !hits_pipe(bird, p),
{
}

/// A pipe left of the left limit is removed by the next frame, however
/// short; a pipe at or right of the limit is kept by a frame in which it
/// does not move past it.
pub proof fn law_off_screen_pipe_removed(p: Pipe, dt: u32)
    ensures
        p.x < left_limit() ==> remaining(seq![p], dt) == Seq::<Pipe>::empty(),
        shifted(p, dt).x >= left_limit() ==> remaining(seq![p], dt) == seq![shifted(p, dt)],
        p.x >= left_limit() ==> remaining(seq![p], 0) == seq![p],
{
    let none = Seq::<Pipe>::empty();
    let by = shift_by(dt);
    let keep = is_in_play();
    assert(seq![p] =~= none.push(p));
    none.lemma_push_map_commute(by, p);
    assert(none.map_values(by) =~= none);
    none.lemma_filter_len(keep);
    assert(none.filter(keep) =~= none);
    none.lemma_filter_push(shifted(p, dt), keep);
    assert(none.push(shifted(p, dt)) =~= seq![shifted(p, dt)]);
    if p.x >= left_limit() {
        let still = shift_by(0);
        none.lemma_push_map_commute(still, p);
        assert(none.map_values(still) =~= none);
        assert(shifted(p, 0) == p);
        none.lemma_filter_push(p, keep);
    }
}

/// The jump key on the title screen starts a session: the game is in play,
/// with one fresh bird whose score is zero, a score display reading `0`,
/// no pipes but those there were, and the countdown at its first interval.
pub proof fn law_jump_starts_session(g: GameView, event: MyStateEvent)
    requires
        g.running,
        g.phase == GamePhase::Title,
        asks_jump(event),
        !asks_quit(event),
    ensures
        handled(g, event).phase == GamePhase::Play,
        handled(g, event).running,
        handled(g, event).world.bird == Some(fresh_bird()),
        fresh_bird().score == 0,
        handled(g, event).world.score_text == Some(seq!['0']),
        handled(g, event).world.pipes == g.world.pipes,
        handled(g, event).world.backgrounds == g.world.backgrounds,
        handled(g, event).timer == Some(SPAWN_MIN),
{
}

/// The jump key after a session has ended resumes play: no pipe is left,
/// a fresh bird stands at the origin with no score, and the score display,
/// where there is one, reads `0`.
pub proof fn law_jump_resumes_session(g: GameView, event: MyStateEvent)
    requires
        g.running,
        g.phase == GamePhase::Pause,
        asks_jump(event),
    ensures
        handled(g, event).phase == GamePhase::Play,
        handled(g, event).running,
        handled(g, event).world.pipes == Seq::<Pipe>::empty(),
        handled(g, event).world.bird == Some(fresh_bird()),
        fresh_bird().x == 0 && fresh_bird().y == 0 && fresh_bird().score == 0,
        g.world.score_text is Some ==> handled(g, event).world.score_text == Some(seq!['0']),
        g.world.score_text is None ==> handled(g, event).world.score_text is None,
        handled(g, event).timer == g.timer,
{
}

/// A collision during play ends the session: no pipe and no bird are left,
/// and the title, where it is known, is shown and reads the final score.
pub proof fn law_collision_ends_session(g: GameView)
    requires
        g.running,
        g.phase == GamePhase::Play,
    ensures
        ({
            let after = handled(g, MyStateEvent::Game(GameEvent::Collision));
            &&& after.phase == GamePhase::Pause
            &&& after.running
            &&& after.world.pipes == Seq::<Pipe>::empty()
            &&& after.world.bird is None
            &&& after.world.title == with_final_score(g.world.title, last_shown(g.world.score_text))
            &&& after.timer == g.timer
        }),
{
}

/// A frame of play in which the countdown runs out adds exactly one pair of
/// pipes: where no pipe stood before and the frame is short enough for the
/// new ones to stay on screen, the pipes after their move are the lower and
/// the upper pipe of the pair, both scrolled by the frame's time, and the
/// countdown restarts at the interval drawn.
pub proof fn law_countdown_spawns_one_pair(g: GameView, dt: u32, draw: SpawnDraw)
    requires
        g.running,
        g.phase == GamePhase::Play,
        g.world.pipes.len() == 0,
        runs_out(g.timer, dt),
        dt <= 10_000_000,
    ensures
        moved_pipes(g.world, g.timer, dt, draw) == seq![
            shifted(lower_pipe(draw.gap), dt),
            shifted(upper_pipe(draw.gap), dt),
        ],
        advanced(g, dt, false, draw).world.pipes.len() == 2,
        advanced(g, dt, false, draw).timer == Some(draw.interval),
{
    let none = Seq::<Pipe>::empty();
    let by = shift_by(dt);
    let keep = is_in_play();
    let lo = lower_pipe(draw.gap);
    let hi = upper_pipe(draw.gap);
    assert(g.world.pipes =~= none);
    assert(with_pair(g.world.pipes, draw.gap) == none.push(lo).push(hi));
    none.lemma_push_map_commute(by, lo);
    none.push(lo).lemma_push_map_commute(by, hi);
    assert(none.map_values(by) =~= none);
    none.lemma_filter_len(keep);
    assert(none.filter(keep) =~= none);
    assert(travel(PIPE_SCROLL as int, dt) >= -600_000_000) by (nonlinear_arith)
        requires
            dt <= 10_000_000,
            PIPE_SCROLL == -60,
    {
    }
    none.lemma_filter_push(shifted(lo, dt), keep);
    none.push(shifted(lo, dt)).lemma_filter_push(shifted(hi, dt), keep);
    assert(none.push(shifted(lo, dt)).push(shifted(hi, dt)) =~= seq![shifted(lo, dt), shifted(hi, dt)]);
}

/// What holds of a game at all times is kept by every event and by every
/// frame whose random choices lie within their ranges.
pub proof fn law_game_stays_well_formed(
    g: GameView,
    event: MyStateEvent,
    dt: u32,
    space_pressed: bool,
    draw: SpawnDraw,
)
    requires
        game_wf(g),
        draw.wf(),
    ensures
        game_wf(handled(g, event)),
        game_wf(advanced(g, dt, space_pressed, draw)),
{
}

} // verus!
