//! The game as one value: its phase, its world and its session, driven by
//! events and frames.

use vstd::prelude::*;
use rand::rngs::ThreadRng;
use crate::event::MyStateEvent;
use crate::spawn::{counted_down, SpawnDraw, Spawner, SPAWN_MAX, SPAWN_MIN};
use crate::state::{
    idled, pause_reaction, play_frame, play_paused, play_reaction, play_resumed, play_started,
    played, quiet_frame, title_reaction, title_started, titles_hidden, Frame, FrameView, GamePhase,
    PauseState, PlayState, TitleScreenState, Trans,
};
use crate::text::decimal;
use crate::world::{empty_world, layers_wf, World, WorldView};

verus! {

/// A game.
#[derive(Clone, Debug)]
pub struct Game {
    /// The active phase.
    pub phase: GamePhase,
    /// Whether the program is still running; cleared by a quit.
    pub running: bool,
    /// The entities.
    pub world: World,
    /// The session's own state.
    pub play: PlayState,
}

/// A [`Game`] as a value.
pub struct GameView {
    /// The active phase.
    pub phase: GamePhase,
    /// Whether the program is still running.
    pub running: bool,
    /// The entities.
    pub world: WorldView,
    /// The spawner's countdown.
    pub timer: Option<i64>,
}

impl View for Game {
    type V = GameView;

    open spec fn view(&self) -> GameView {
        GameView {
            phase: self.phase,
            running: self.running,
            world: self.world@,
            timer: self.play.pipe_spawn_timer,
        }
    }
}

/// A game as it begins: on the title screen, with the two layers.
pub open spec fn initial() -> GameView {
    GameView {
        phase: GamePhase::Title,
        running: true,
        world: title_started(empty_world()),
        timer: None,
    }
}

/// What the phase `phase` asks for in reaction to `event`.
pub open spec fn reaction(phase: GamePhase, event: MyStateEvent) -> Trans {
    match phase {
        GamePhase::Title => title_reaction(event),
        GamePhase::Play => play_reaction(event),
        GamePhase::Pause => pause_reaction(event),
    }
}

/// The game after `event` has been delivered to its active phase. A game
/// that has quit ignores events.
pub open spec fn handled(g: GameView, event: MyStateEvent) -> GameView {
    if !g.running {
        g
    } else {
        match (g.phase, reaction(g.phase, event)) {
            (_, Trans::Quit) => GameView { running: false, ..g },
            (GamePhase::Title, Trans::Push(_)) => GameView {
                phase: GamePhase::Play,
                running: true,
                world: play_started(titles_hidden(g.world, true)),
                timer: Some(SPAWN_MIN),
            },
            (GamePhase::Play, Trans::Push(_)) => GameView {
                phase: GamePhase::Pause,
                world: play_paused(g.world),
                ..g
            },
            (GamePhase::Pause, Trans::Pop) => GameView {
                phase: GamePhase::Play,
                world: play_resumed(g.world),
                ..g
            },
            _ => g,
        }
    }
}

/// The game after one frame of `dt` microseconds. Only a running session
/// moves bird and pipes; on the other screens the layers alone scroll, and
/// a game that has quit stands still.
pub open spec fn advanced(g: GameView, dt: u32, space_pressed: bool, draw: SpawnDraw) -> GameView {
    if !g.running {
        g
    } else {
        match g.phase {
            GamePhase::Play => GameView {
                world: played(g.world, g.timer, dt, space_pressed, draw),
                timer: counted_down(g.timer, dt, draw.interval),
                ..g
            },
            _ => GameView { world: idled(g.world, dt), ..g },
        }
    }
}

/// What the frame that takes `g` to [`advanced`] reports.
pub open spec fn reported(g: GameView, dt: u32, space_pressed: bool, draw: SpawnDraw) -> FrameView {
    if g.running && g.phase == GamePhase::Play {
        play_frame(g.world, g.timer, dt, space_pressed, draw)
    } else {
        quiet_frame()
    }
}

/// What holds of a game at all times: every layer's offset lies within one
/// period; there is a bird exactly while a session is played; there are
/// pipes only then; once a session has started, its countdown is positive
/// and no longer than the longest interval, and there is a score display;
/// and while a session is played, the display reads the bird's score.
pub open spec fn game_wf(g: GameView) -> bool {
    &&& layers_wf(g.world)
    &&& (g.phase == GamePhase::Play) == (g.world.bird is Some)
    &&& g.phase != GamePhase::Play ==> g.world.pipes.len() == 0
    &&& g.phase != GamePhase::Title ==> (g.timer matches Some(t) && 0 < t <= SPAWN_MAX)
    &&& g.phase != GamePhase::Title ==> g.world.score_text is Some
    &&& g.world.bird matches Some(b) ==> g.world.score_text == Some(decimal(b.score as nat))
}

impl Game {
    /// A new game, on the title screen.
    pub fn new() -> (g: Game)
        ensures
            g@ == initial(),
            game_wf(g@),
    {
        let mut world = World::new();
        TitleScreenState::on_start(&mut world);
        Game { phase: GamePhase::Title, running: true, world, play: PlayState::new() }
    }

    /// Delivers `event` to the active phase and carries out what it asks
    /// for; returns that request.
    pub fn handle_event(&mut self, event: &MyStateEvent) -> (t: Trans)
        ensures
            final(self)@ == handled(old(self)@, *event),
            t == (if old(self).running {
                reaction(old(self).phase, *event)
            } else {
                Trans::Stay
            }),
            game_wf(old(self)@) ==> game_wf(final(self)@),
    {
        if !self.running {
            return Trans::Stay;
        }
        match self.phase {
            GamePhase::Title => {
                let t = TitleScreenState::handle_event(event);
                match t {
                    Trans::Quit => {
                        self.running = false;
                    },
                    Trans::Push(_) => {
                        TitleScreenState::on_pause(&mut self.world);
                        self.play.on_start(&mut self.world);
                        self.phase = GamePhase::Play;
                    },
                    _ => {},
                }
                t
            },
            GamePhase::Play => {
                let t = PlayState::handle_event(event);
                match t {
                    Trans::Quit => {
                        self.running = false;
                    },
                    Trans::Push(_) => {
                        self.play.on_pause(&mut self.world);
                        self.phase = GamePhase::Pause;
                    },
                    _ => {},
                }
                t
            },
            GamePhase::Pause => {
                let t = PauseState::handle_event(event);
                match t {
                    Trans::Quit => {
                        self.running = false;
                    },
                    Trans::Pop => {
                        self.play.on_resume(&mut self.world);
                        self.phase = GamePhase::Play;
                    },
                    _ => {},
                }
                t
            },
        }
    }

    /// One frame of `dt` microseconds with the random choices given.
    pub fn update_with(&mut self, dt: u32, space_pressed: bool, draw: SpawnDraw) -> (frame: Frame)
        ensures
            final(self)@ == advanced(old(self)@, dt, space_pressed, draw),
            frame@ == reported(old(self)@, dt, space_pressed, draw),
            game_wf(old(self)@) && draw.wf() ==> game_wf(final(self)@),
    {
        if !self.running {
            return Frame::quiet();
        }
        match self.phase {
            GamePhase::Title => {
                TitleScreenState::update(&mut self.world, dt);
                Frame::quiet()
            },
            GamePhase::Play => self.play.update_with(&mut self.world, dt, space_pressed, draw),
            GamePhase::Pause => {
                PauseState::update(&mut self.world, dt);
                Frame::quiet()
            },
        }
    }

    /// One frame of `dt` microseconds. Where a running session's countdown
    /// runs out, the choices for the new pair are drawn from `rng`; the
    /// frame is then that of [`Game::update_with`] for some choices within
    /// their ranges.
    pub fn update(&mut self, dt: u32, space_pressed: bool, rng: &mut ThreadRng) -> (frame: Frame)
        ensures
            exists|draw: SpawnDraw|
                {
                    &&& #[trigger] draw.wf()
                    &&& final(self)@ == advanced(old(self)@, dt, space_pressed, draw)
                    &&& frame@ == reported(old(self)@, dt, space_pressed, draw)
                },
            game_wf(old(self)@) ==> game_wf(final(self)@),
    {
        let spawns = self.running && matches!(self.phase, GamePhase::Play) && Spawner::timer_runs_out(
            self.play.pipe_spawn_timer,
            dt,
        );
        let draw = if spawns {
            Spawner::draw(rng)
        } else {
            SpawnDraw { gap: 0, interval: SPAWN_MIN }
        };
        assert(draw.wf());
        self.update_with(dt, space_pressed, draw)
    }
}

} // verus!
