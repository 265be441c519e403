//! The three game phases: how each reacts to events, what entering and
//! leaving one does to the world, and what one frame of each does.

use vstd::prelude::*;
use rand::rngs::ThreadRng;
use crate::background::{all_scrolled, Background, BackgroundSystem, BackgroundType};
use crate::bird::{flown, fresh_bird, jumps, Bird, BirdSystem};
use crate::collision::{collision_count, collisions, CollisionSystem};
use crate::event::{GameEvent, MyStateEvent};
use crate::pipe::{remaining, Pipe, PipeSystem};
use crate::score::{counted_at, points, rewarded, shown, ScoreSystem};
use crate::spawn::{counted_down, runs_out, with_pair, SpawnDraw, Spawner, SPAWN_MIN};
use crate::text::{final_score, final_score_text};
use crate::units::{BACKGROUND_LOOPING_OFFSET, GROUND_HEIGHT, VIRTUAL_HEIGHT};
use crate::world::{last_shown, rewritten, with_hidden, Label, LabelView, World, WorldView};

verus! {

/// The phase a game is in.
#[derive(Clone, Copy, Debug, PartialEq, Eq, Structural)]
pub enum GamePhase {
    /// The title screen, before the first session.
    Title,
    /// A session is being played.
    Play,
    /// A session has ended; the final score is shown.
    Pause,
}

/// What a phase asks for in reaction to an event.
#[derive(Clone, Copy, Debug, PartialEq, Eq, Structural)]
pub enum Trans {
    /// Stay in the phase.
    Stay,
    /// End the program.
    Quit,
    /// Suspend the phase and enter the given one on top of it.
    Push(GamePhase),
    /// Leave the phase and resume the one below.
    Pop,
}

/// Whether `event` asks to end the program: the window is closing or the
/// escape key went down.
pub open spec fn asks_quit(event: MyStateEvent) -> bool {
    match event {
        MyStateEvent::Window(w) => w.close_requested || w.escape_down,
        _ => false,
    }
}

/// Whether `event` is a press of the jump key.
pub open spec fn asks_jump(event: MyStateEvent) -> bool {
    match event {
        MyStateEvent::Window(w) => w.space_down,
        _ => false,
    }
}

/// The title screen's reaction: quit, or start a session on the jump key.
pub open spec fn title_reaction(event: MyStateEvent) -> Trans {
    if asks_quit(event) {
        Trans::Quit
    } else if asks_jump(event) {
        Trans::Push(GamePhase::Play)
    } else {
        Trans::Stay
    }
}

/// A running session's reaction: quit, or end the session on a collision.
pub open spec fn play_reaction(event: MyStateEvent) -> Trans {
    if asks_quit(event) {
        Trans::Quit
    } else if event == MyStateEvent::Game(GameEvent::Collision) {
        Trans::Push(GamePhase::Pause)
    } else {
        Trans::Stay
    }
}

/// An ended session's reaction: resume on the jump key, or quit.
pub open spec fn pause_reaction(event: MyStateEvent) -> Trans {
    if asks_jump(event) {
        Trans::Pop
    } else if asks_quit(event) {
        Trans::Quit
    } else {
        Trans::Stay
    }
}

/// The far background layer as the title screen creates it.
pub open spec fn far_layer() -> Background {
    Background {
        b_type: BackgroundType::Background,
        scroll_pos: 0,
        x: BACKGROUND_LOOPING_OFFSET,
        y: 0,
    }
}

/// The ground layer as the title screen creates it, lying on the
/// playfield's bottom edge.
pub open spec fn ground_layer() -> Background {
    Background {
        b_type: BackgroundType::Ground,
        scroll_pos: 0,
        x: BACKGROUND_LOOPING_OFFSET,
        y: (-(VIRTUAL_HEIGHT / 2) + GROUND_HEIGHT / 2) as i64,
    }
}

/// The world once the title screen has started: both layers added.
pub open spec fn title_started(w: WorldView) -> WorldView {
    WorldView { backgrounds: w.backgrounds.push(far_layer()).push(ground_layer()), ..w }
}

/// The world with the title and the overlay below it hidden or shown.
pub open spec fn titles_hidden(w: WorldView, hidden: bool) -> WorldView {
    WorldView {
        title: with_hidden(w.title, hidden),
        sub_title: with_hidden(w.sub_title, hidden),
        ..w
    }
}

/// The world once a session has started: a score display reading `0` and a
/// fresh bird.
pub open spec fn play_started(w: WorldView) -> WorldView {
    WorldView { score_text: Some(seq!['0']), bird: Some(fresh_bird()), ..w }
}

/// The title overlay at the end of a session whose score display read `last`.
pub open spec fn with_final_score(title: Option<LabelView>, last: Seq<char>) -> Option<LabelView> {
    match title {
        Some(_) => Some(LabelView { text: final_score_text(last), hidden: false }),
        None => None,
    }
}

/// The world once a session has ended: no pipes, no bird, the score
/// display blank, the overlays shown, the title reading the final score.
pub open spec fn play_paused(w: WorldView) -> WorldView {
    WorldView {
        backgrounds: w.backgrounds,
        bird: None,
        pipes: Seq::empty(),
        score_text: rewritten(w.score_text, Seq::empty()),
        title: with_final_score(w.title, last_shown(w.score_text)),
        sub_title: with_hidden(w.sub_title, false),
    }
}

/// The world once a session has been resumed: the score display reading
/// `0`, a fresh bird, no pipes, the overlays hidden.
pub open spec fn play_resumed(w: WorldView) -> WorldView {
    WorldView {
        backgrounds: w.backgrounds,
        bird: Some(fresh_bird()),
        pipes: Seq::empty(),
        score_text: rewritten(w.score_text, seq!['0']),
        title: with_hidden(w.title, true),
        sub_title: with_hidden(w.sub_title, true),
    }
}

/// The world after a frame in which only the layers scroll.
pub open spec fn idled(w: WorldView, dt: u32) -> WorldView {
    WorldView { backgrounds: all_scrolled(w.backgrounds, dt), ..w }
}

/// The bird of `w` after its move in a frame of a session.
pub open spec fn moved_bird(w: WorldView, dt: u32, space_pressed: bool) -> Option<Bird> {
    match w.bird {
        Some(b) => Some(flown(b, dt, space_pressed)),
        None => None,
    }
}

/// The pipes of `w` after the spawner and their scroll in a frame of a
/// session whose countdown stood at `timer`.
pub open spec fn moved_pipes(w: WorldView, timer: Option<i64>, dt: u32, draw: SpawnDraw) -> Seq<Pipe> {
    remaining(
        if runs_out(timer, dt) {
            with_pair(w.pipes, draw.gap)
        } else {
            w.pipes
        },
        dt,
    )
}

/// The world after one frame of a session: the spawner runs, the bird, the
/// pipes and the layers move, and the score is kept on the moved positions.
pub open spec fn played(
    w: WorldView,
    timer: Option<i64>,
    dt: u32,
    space_pressed: bool,
    draw: SpawnDraw,
) -> WorldView {
    let pipes = moved_pipes(w, timer, dt, draw);
    match moved_bird(w, dt, space_pressed) {
        Some(b) => WorldView {
            backgrounds: all_scrolled(w.backgrounds, dt),
            bird: Some(rewarded(b, pipes)),
            pipes: pipes.map_values(counted_at(b.x as int)),
            score_text: shown(w.score_text, points(pipes, b.x as int), rewarded(b, pipes).score),
            title: w.title,
            sub_title: w.sub_title,
        },
        None => WorldView {
            backgrounds: all_scrolled(w.backgrounds, dt),
            bird: None,
            pipes,
            score_text: w.score_text,
            title: w.title,
            sub_title: w.sub_title,
        },
    }
}

/// What one frame reports besides the new world.
#[derive(Clone, Debug)]
pub struct Frame {
    /// The collisions detected, one event for each.
    pub events: Vec<GameEvent>,
    /// Whether the bird jumped.
    pub jumped: bool,
    /// The points given.
    pub scored: usize,
}

/// A [`Frame`] as a value.
pub struct FrameView {
    /// The collisions detected, one event for each.
    pub events: Seq<GameEvent>,
    /// Whether the bird jumped.
    pub jumped: bool,
    /// The points given.
    pub scored: nat,
}

impl View for Frame {
    type V = FrameView;

    open spec fn view(&self) -> FrameView {
        FrameView { events: self.events@, jumped: self.jumped, scored: self.scored as nat }
    }
}

/// The report of a frame in which nothing but the layers moved.
pub open spec fn quiet_frame() -> FrameView {
    FrameView { events: Seq::empty(), jumped: false, scored: 0 }
}

/// The report of one frame of a session. Collisions are detected on the
/// moved bird, pipes and layers.
pub open spec fn play_frame(
    w: WorldView,
    timer: Option<i64>,
    dt: u32,
    space_pressed: bool,
    draw: SpawnDraw,
) -> FrameView {
    let pipes = moved_pipes(w, timer, dt, draw);
    let bird = moved_bird(w, dt, space_pressed);
    FrameView {
        events: collisions(collision_count(bird, pipes, all_scrolled(w.backgrounds, dt))),
        jumped: match w.bird {
            Some(b) => jumps(b, space_pressed),
            None => false,
        },
        scored: match bird {
            Some(b) => points(pipes, b.x as int),
            None => 0,
        },
    }
}

impl Frame {
    /// The report of a frame in which nothing but the layers moved.
    pub fn quiet() -> (f: Frame)
        ensures
            f@ == quiet_frame(),
    {
        Frame { events: Vec::new(), jumped: false, scored: 0 }
    }
}

fn is_quit(event: &MyStateEvent) -> (r: bool)
    ensures
        r == asks_quit(*event),
{
    match event {
        MyStateEvent::Window(w) => w.close_requested || w.escape_down,
        _ => false,
    }
}

fn is_jump(event: &MyStateEvent) -> (r: bool)
    ensures
        r == asks_jump(*event),
{
    match event {
        MyStateEvent::Window(w) => w.space_down,
        _ => false,
    }
}

/// The title screen.
pub struct TitleScreenState;

impl TitleScreenState {
    /// Creates the two scrolling layers.
    pub fn on_start(world: &mut World)
        ensures
            final(world)@ == title_started(old(world)@),
    {
        world.backgrounds.push(Background::new(BackgroundType::Background, 0));
        world.backgrounds.push(
            Background::new(BackgroundType::Ground, (VIRTUAL_HEIGHT - GROUND_HEIGHT) / -2),
        );
    }

    /// Hides the title and the overlay below it as a session begins.
    pub fn on_pause(world: &mut World)
        ensures
            final(world)@ == titles_hidden(old(world)@, true),
    {
        world.set_titles_hidden(true);
    }

    /// Reacts to `event`.
    pub fn handle_event(event: &MyStateEvent) -> (t: Trans)
        ensures
            t == title_reaction(*event),
    {
        if is_quit(event) {
            Trans::Quit
        } else if is_jump(event) {
            Trans::Push(GamePhase::Play)
        } else {
            Trans::Stay
        }
    }

    /// One frame of the title screen: only the layers scroll.
    pub fn update(world: &mut World, dt: u32)
        ensures
            final(world)@ == idled(old(world)@, dt),
    {
        BackgroundSystem::run(&mut world.backgrounds, dt);
    }
}

/// A session: the spawner's countdown.
#[derive(Clone, Copy, Debug)]
pub struct PlayState {
    /// Microseconds until the next pair of pipes; `None` before the session starts.
    pub pipe_spawn_timer: Option<i64>,
}

impl Default for PlayState {
    /// A session that has not started.
    fn default() -> (s: PlayState)
        ensures
            s.pipe_spawn_timer is None,
    {
        PlayState { pipe_spawn_timer: None }
    }
}

impl PlayState {
    /// A session that has not started.
    pub fn new() -> (s: PlayState)
        ensures
            s.pipe_spawn_timer is None,
    {
        PlayState { pipe_spawn_timer: None }
    }

    /// Starts the session: the countdown is set to its first interval, the
    /// score display reads `0`, and a fresh bird is created.
    pub fn on_start(&mut self, world: &mut World)
        ensures
            final(self).pipe_spawn_timer == Some(SPAWN_MIN),
            final(world)@ == play_started(old(world)@),
    {
        self.pipe_spawn_timer = Some(SPAWN_MIN);
        proof {
            reveal_strlit("0");
        }
        let zero = String::from_str("0");
        assert(zero@ =~= seq!['0']);
        world.score_text = Some(zero);
        world.bird = Some(Bird::new());
    }

    /// Ends the session: every pipe and the bird are removed, the score
    /// display is blanked, and the overlays are shown, the title reading
    /// the final score. The countdown is left as it is.
    pub fn on_pause(&mut self, world: &mut World)
        ensures
            final(self).pipe_spawn_timer == old(self).pipe_spawn_timer,
            final(world)@ == play_paused(old(world)@),
    {
        world.pipes.clear();
        world.bird = None;
        let last_score = world.set_score_font("");
        proof {
            reveal_strlit("");
        }
        assert(""@ =~= Seq::<char>::empty());
        world.set_titles_hidden(false);
        if world.title.is_some() {
            world.title = Some(Label { text: final_score(last_score.as_str()), hidden: false });
        }
    }

    /// Resumes the session: the score display reads `0`, a fresh bird is
    /// created, no pipe is left, and the overlays are hidden.
    pub fn on_resume(&mut self, world: &mut World)
        ensures
            final(self).pipe_spawn_timer == old(self).pipe_spawn_timer,
            final(world)@ == play_resumed(old(world)@),
    {
        proof {
            reveal_strlit("0");
        }
        assert("0"@ =~= seq!['0']);
        let _ = world.set_score_font("0");
        world.pipes.clear();
        world.bird = Some(Bird::new());
        world.set_titles_hidden(true);
    }

    /// Reacts to `event`.
    pub fn handle_event(event: &MyStateEvent) -> (t: Trans)
        ensures
            t == play_reaction(*event),
    {
        if is_quit(event) {
            return Trans::Quit;
        }
        match event {
            MyStateEvent::Game(GameEvent::Collision) => Trans::Push(GamePhase::Pause),
            _ => Trans::Stay,
        }
    }

    /// One frame of `dt` microseconds with the random choices given:
    /// the spawner, then bird, pipes and layers, then collisions and score
    /// on the moved positions. `draw` is used only where the countdown runs
    /// out.
    pub fn update_with(
        &mut self,
        world: &mut World,
        dt: u32,
        space_pressed: bool,
        draw: SpawnDraw,
    ) -> (frame: Frame)
        ensures
            final(self).pipe_spawn_timer == counted_down(
                old(self).pipe_spawn_timer,
                dt,
                draw.interval,
            ),
            final(world)@ == played(
                old(world)@,
                old(self).pipe_spawn_timer,
                dt,
                space_pressed,
                draw,
            ),
            frame@ == play_frame(old(world)@, old(self).pipe_spawn_timer, dt, space_pressed, draw),
    {
        Spawner::tick(&mut self.pipe_spawn_timer, &mut world.pipes, dt, draw);
        let jumped = BirdSystem::run(&mut world.bird, dt, space_pressed);
        PipeSystem::run(&mut world.pipes, dt);
        BackgroundSystem::run(&mut world.backgrounds, dt);
        let events = CollisionSystem::run(&world.bird, &world.pipes, &world.backgrounds);
        let scored = ScoreSystem::run(&mut world.bird, &mut world.pipes, &mut world.score_text);
        Frame { events, jumped, scored }
    }

    /// One frame of `dt` microseconds. Where the countdown runs out, the
    /// choices for the new pair are drawn from `rng`; the frame is then
    /// that of [`PlayState::update_with`] for some choices within their ranges.
    pub fn update(&mut self, world: &mut World, dt: u32, space_pressed: bool, rng: &mut ThreadRng) -> (frame:
        Frame)
        ensures
            exists|draw: SpawnDraw|
                {
                    &&& #[trigger] draw.wf()
                    &&& final(self).pipe_spawn_timer == counted_down(
                        old(self).pipe_spawn_timer,
                        dt,
                        draw.interval,
                    )
                    &&& final(world)@ == played(
                        old(world)@,
                        old(self).pipe_spawn_timer,
                        dt,
                        space_pressed,
                        draw,
                    )
                    &&& frame@ == play_frame(
                        old(world)@,
                        old(self).pipe_spawn_timer,
                        dt,
                        space_pressed,
                        draw,
                    )
                },
    {
        let draw = if Spawner::timer_runs_out(self.pipe_spawn_timer, dt) {
            Spawner::draw(rng)
        } else {
            SpawnDraw { gap: 0, interval: SPAWN_MIN }
        };
        assert(draw.wf());
        self.update_with(world, dt, space_pressed, draw)
    }
}

/// The screen shown after a session has ended.
pub struct PauseState;

impl PauseState {
    /// Reacts to `event`.
    pub fn handle_event(event: &MyStateEvent) -> (t: Trans)
        ensures
            t == pause_reaction(*event),
    {
        if is_jump(event) {
            Trans::Pop
        } else if is_quit(event) {
            Trans::Quit
        } else {
            Trans::Stay
        }
    }

    /// One frame after a session has ended: only the layers scroll.
    pub fn update(world: &mut World, dt: u32)
        ensures
            final(world)@ == idled(old(world)@, dt),
    {
        BackgroundSystem::run(&mut world.backgrounds, dt);
    }
}

} // verus!
