use flappy_bird::background::{Background, BackgroundType};
use flappy_bird::bird::Bird;
use flappy_bird::pipe::Pipe;
use flappy_bird::spawn::SpawnDraw;
use flappy_bird::state::{Frame, GamePhase, PauseState, PlayState, TitleScreenState, Trans};
use flappy_bird::world::{Label, World};
use flappy_bird::{GameEvent, MyStateEvent, WindowEvent};

fn window(close_requested: bool, escape_down: bool, space_down: bool) -> MyStateEvent {
    MyStateEvent::Window(WindowEvent { close_requested, escape_down, space_down })
}

fn titled_world() -> World {
    let mut w = World::new();
    w.title = Some(Label::new(String::from("Flappy")));
    w.sub_title = Some(Label::new(String::from("Press space")));
    w
}

#[test]
fn title_reacts_to_quit_and_jump() {
    assert_eq!(TitleScreenState::handle_event(&window(true, false, false)), Trans::Quit);
    assert_eq!(TitleScreenState::handle_event(&window(false, true, false)), Trans::Quit);
    assert_eq!(TitleScreenState::handle_event(&window(false, true, true)), Trans::Quit);
    assert_eq!(
        TitleScreenState::handle_event(&window(false, false, true)),
        Trans::Push(GamePhase::Play)
    );
    assert_eq!(TitleScreenState::handle_event(&window(false, false, false)), Trans::Stay);
    assert_eq!(TitleScreenState::handle_event(&MyStateEvent::Game(GameEvent::Collision)), Trans::Stay);
    assert_eq!(TitleScreenState::handle_event(&MyStateEvent::Ui), Trans::Stay);
    assert_eq!(TitleScreenState::handle_event(&MyStateEvent::Input), Trans::Stay);
}

#[test]
fn play_reacts_to_quit_and_collision() {
    assert_eq!(PlayState::handle_event(&window(true, false, false)), Trans::Quit);
    assert_eq!(PlayState::handle_event(&window(false, true, false)), Trans::Quit);
    assert_eq!(PlayState::handle_event(&window(false, false, true)), Trans::Stay);
    assert_eq!(
        PlayState::handle_event(&MyStateEvent::Game(GameEvent::Collision)),
        Trans::Push(GamePhase::Pause)
    );
    assert_eq!(PlayState::handle_event(&MyStateEvent::Ui), Trans::Stay);
    assert_eq!(PlayState::handle_event(&MyStateEvent::Input), Trans::Stay);
}

#[test]
fn pause_reacts_to_jump_before_quit() {
    assert_eq!(PauseState::handle_event(&window(false, false, true)), Trans::Pop);
    assert_eq!(PauseState::handle_event(&window(false, true, true)), Trans::Pop);
    assert_eq!(PauseState::handle_event(&window(true, false, false)), Trans::Quit);
    assert_eq!(PauseState::handle_event(&window(false, true, false)), Trans::Quit);
    assert_eq!(PauseState::handle_event(&window(false, false, false)), Trans::Stay);
    assert_eq!(PauseState::handle_event(&MyStateEvent::Game(GameEvent::Collision)), Trans::Stay);
}

#[test]
fn title_start_creates_both_layers() {
    let mut w = World::new();
    TitleScreenState::on_start(&mut w);
    assert_eq!(
        w.backgrounds,
        vec![
            Background { b_type: BackgroundType::Background, scroll_pos: 0, x: 290_000_000, y: 0 },
            Background { b_type: BackgroundType::Ground, scroll_pos: 0, x: 290_000_000, y: -138_000_000 },
        ]
    );
    assert_eq!(w.bird, None);
    assert!(w.pipes.is_empty());
    assert!(w.score_text.is_none());
}

#[test]
fn title_pause_hides_the_overlays() {
    let mut w = titled_world();
    TitleScreenState::on_pause(&mut w);
    assert!(w.title.as_ref().unwrap().hidden);
    assert!(w.sub_title.as_ref().unwrap().hidden);
    assert_eq!(w.title.as_ref().unwrap().text, "Flappy");
    let mut bare = World::new();
    TitleScreenState::on_pause(&mut bare);
    assert!(bare.title.is_none());
    assert!(bare.sub_title.is_none());
}

#[test]
fn play_start_sets_countdown_display_and_bird() {
    let mut w = World::new();
    let mut s = PlayState::new();
    assert_eq!(s.pipe_spawn_timer, None);
    s.on_start(&mut w);
    assert_eq!(s.pipe_spawn_timer, Some(2_000_000));
    assert_eq!(w.score_text, Some(String::from("0")));
    assert_eq!(w.bird, Some(Bird { dy: 0, score: 0, fly_pressed: false, x: 0, y: 0 }));
}

#[test]
fn play_pause_clears_the_session_and_shows_the_score() {
    let mut w = titled_world();
    TitleScreenState::on_pause(&mut w);
    let mut s = PlayState::new();
    s.on_start(&mut w);
    w.pipes.push(Pipe::new(1, 2, false));
    w.pipes.push(Pipe::new(1, 3, true));
    w.score_text = Some(String::from("7"));
    s.pipe_spawn_timer = Some(1_234);
    s.on_pause(&mut w);
    assert!(w.pipes.is_empty());
    assert_eq!(w.bird, None);
    assert_eq!(w.score_text, Some(String::new()));
    assert_eq!(w.title.as_ref().unwrap().text, "Your Score: 7");
    assert!(!w.title.as_ref().unwrap().hidden);
    assert_eq!(w.sub_title.as_ref().unwrap().text, "Press space");
    assert!(!w.sub_title.as_ref().unwrap().hidden);
    assert_eq!(s.pipe_spawn_timer, Some(1_234));
}

#[test]
fn play_pause_without_a_display_shows_zero() {
    let mut w = titled_world();
    let mut s = PlayState::new();
    s.on_pause(&mut w);
    assert_eq!(w.score_text, None);
    assert_eq!(w.title.as_ref().unwrap().text, "Your Score: 0");
}

#[test]
fn play_resume_resets_display_and_bird_and_hides_the_overlays() {
    let mut w = titled_world();
    let mut s = PlayState::new();
    s.on_start(&mut w);
    w.score_text = Some(String::from("7"));
    s.on_pause(&mut w);
    s.on_resume(&mut w);
    assert_eq!(w.score_text, Some(String::from("0")));
    assert_eq!(w.bird, Some(Bird::new()));
    assert!(w.title.as_ref().unwrap().hidden);
    assert!(w.sub_title.as_ref().unwrap().hidden);
    assert!(w.pipes.is_empty());
}

#[test]
fn set_score_font_returns_what_was_shown() {
    let mut w = World::new();
    assert_eq!(w.set_score_font("5"), "0");
    assert_eq!(w.score_text, None);
    w.score_text = Some(String::from("12"));
    assert_eq!(w.set_score_font("5"), "12");
    assert_eq!(w.score_text, Some(String::from("5")));
}

#[test]
fn idle_frames_only_scroll_the_layers() {
    let mut w = World::new();
    TitleScreenState::on_start(&mut w);
    w.pipes.push(Pipe::new(1, 2, false));
    w.bird = Some(Bird::new());
    TitleScreenState::update(&mut w, 1_000_000);
    assert_eq!(w.backgrounds[0].scroll_pos, 30_000_000);
    assert_eq!(w.backgrounds[1].scroll_pos, 61_000_000);
    PauseState::update(&mut w, 1_000_000);
    assert_eq!(w.backgrounds[0].scroll_pos, 60_000_000);
    assert_eq!(w.backgrounds[1].scroll_pos, 122_000_000);
    assert_eq!(w.pipes, vec![Pipe::new(1, 2, false)]);
    assert_eq!(w.bird, Some(Bird::new()));
}

#[test]
fn session_frame_runs_the_rules_in_order() {
    let mut w = World::new();
    TitleScreenState::on_start(&mut w);
    let mut s = PlayState::new();
    s.on_start(&mut w);
    w.pipes.push(Pipe::new(-34_000_000, -189_000_000, false));
    w.pipes.push(Pipe::new(-34_000_000, 209_000_000, true));
    w.pipes.push(Pipe::new(-325_999_999, -189_000_000, false));
    let draw = SpawnDraw { gap: 0, interval: 2_500_000 };
    let frame: Frame = s.update_with(&mut w, 100_000, true, draw);
    assert!(frame.jumped);
    assert_eq!(frame.scored, 1);
    assert!(frame.events.is_empty());
    assert_eq!(s.pipe_spawn_timer, Some(1_900_000));
    assert_eq!(w.bird, Some(Bird { dy: 4_000_000, score: 1, fly_pressed: true, x: 0, y: 4_000_000 }));
    assert_eq!(
        w.pipes,
        vec![
            Pipe { is_scored: true, x: -40_000_000, y: -189_000_000, flipped: false },
            Pipe { is_scored: false, x: -40_000_000, y: 209_000_000, flipped: true },
        ]
    );
    assert_eq!(w.score_text, Some(String::from("1")));
    assert_eq!(w.backgrounds[0].scroll_pos, 3_000_000);
    assert_eq!(w.backgrounds[1].scroll_pos, 6_100_000);
}

#[test]
fn session_frame_with_random_choices_spawns_in_range() {
    let mut rng = rand::thread_rng();
    let mut w = World::new();
    let mut s = PlayState::new();
    s.on_start(&mut w);
    let frame = s.update(&mut w, 2_000_000, false, &mut rng);
    assert!(!frame.jumped);
    assert_eq!(w.pipes.len(), 2);
    let timer = s.pipe_spawn_timer.unwrap();
    assert!(2_000_000 <= timer && timer < 4_000_000);
    let gap = w.pipes[0].y + 199_000_000;
    assert!(-40_000_000 <= gap && gap < 40_000_000);
    assert_eq!(w.pipes[1].y, gap + 199_000_000);
    assert_eq!(w.pipes[0].x, 206_000_000);
    assert_eq!(w.pipes[1].x, 206_000_000);
    assert!(!w.pipes[0].flipped);
    assert!(w.pipes[1].flipped);
}

#[test]
fn session_that_never_started_spawns_nothing() {
    let mut rng = rand::thread_rng();
    let mut w = World::new();
    let mut s = PlayState::new();
    let frame = s.update(&mut w, 5_000_000, true, &mut rng);
    assert!(frame.events.is_empty());
    assert!(!frame.jumped);
    assert_eq!(frame.scored, 0);
    assert_eq!(s.pipe_spawn_timer, None);
    assert!(w.pipes.is_empty());
}

#[test]
fn default_session_has_not_started() {
    assert_eq!(PlayState::default().pipe_spawn_timer, None);
}
