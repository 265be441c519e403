use flappy_bird::bird::Bird;
use flappy_bird::pipe::Pipe;
use flappy_bird::score::ScoreSystem;
use flappy_bird::text::{final_score, number_text};

fn pair_at(x: i64, gap: i64) -> Vec<Pipe> {
    vec![Pipe::new(x, gap - 199_000_000, false), Pipe::new(x, gap + 199_000_000, true)]
}

#[test]
fn numbers_are_written_in_decimal() {
    assert_eq!(number_text(0), "0");
    assert_eq!(number_text(7), "7");
    assert_eq!(number_text(10), "10");
    assert_eq!(number_text(105), "105");
    assert_eq!(number_text(1_234_567_890), "1234567890");
    assert_eq!(number_text(u32::MAX), "4294967295");
}

#[test]
fn final_score_is_prefixed() {
    assert_eq!(final_score("12"), "Your Score: 12");
    assert_eq!(final_score(""), "Your Score: ");
}

#[test]
fn pipe_earns_a_point_once_its_right_edge_is_passed() {
    assert!(!ScoreSystem::bird_earns(&Pipe::new(-35_000_000, -189_000_000, false), 0));
    assert!(ScoreSystem::bird_earns(&Pipe::new(-35_000_001, -189_000_000, false), 0));
    assert!(ScoreSystem::bird_earns(&Pipe::new(64_999_999, -189_000_000, false), 100_000_000));
}

#[test]
fn only_a_pipe_below_the_centre_earns_a_point() {
    assert!(ScoreSystem::bird_earns(&Pipe::new(-100_000_000, -144_000_001, false), 0));
    assert!(!ScoreSystem::bird_earns(&Pipe::new(-100_000_000, -144_000_000, false), 0));
    assert!(!ScoreSystem::bird_earns(&Pipe::new(-100_000_000, 209_000_000, true), 0));
}

#[test]
fn counted_pipe_earns_nothing() {
    let p = Pipe { is_scored: true, x: -100_000_000, y: -189_000_000, flipped: false };
    assert!(!ScoreSystem::bird_earns(&p, 0));
}

#[test]
fn passed_pair_scores_exactly_one() {
    let mut bird = Some(Bird::new());
    let mut pipes = pair_at(-36_000_000, 10_000_000);
    let mut display = Some(String::from("0"));
    let given = ScoreSystem::run(&mut bird, &mut pipes, &mut display);
    assert_eq!(given, 1);
    assert_eq!(bird.unwrap().score, 1);
    assert!(pipes[0].is_scored);
    assert!(!pipes[1].is_scored);
    assert_eq!(display, Some(String::from("1")));
    let again = ScoreSystem::run(&mut bird, &mut pipes, &mut display);
    assert_eq!(again, 0);
    assert_eq!(bird.unwrap().score, 1);
    assert_eq!(display, Some(String::from("1")));
}

#[test]
fn passed_pairs_at_both_ends_of_the_gap_range_score_one() {
    for gap in [-40_000_000i64, 0, 39_999_999] {
        let mut bird = Some(Bird::new());
        let mut pipes = pair_at(-100_000_000, gap);
        let mut display = None;
        assert_eq!(ScoreSystem::run(&mut bird, &mut pipes, &mut display), 1);
        assert_eq!(bird.unwrap().score, 1);
        assert_eq!(display, None);
    }
}

#[test]
fn pair_ahead_of_the_bird_scores_nothing() {
    let mut bird = Some(Bird { dy: 1, score: 4, fly_pressed: true, x: 0, y: 9 });
    let mut pipes = pair_at(-35_000_000, 0);
    let mut display = Some(String::from("4"));
    assert_eq!(ScoreSystem::run(&mut bird, &mut pipes, &mut display), 0);
    assert_eq!(bird, Some(Bird { dy: 1, score: 4, fly_pressed: true, x: 0, y: 9 }));
    assert_eq!(pipes, pair_at(-35_000_000, 0));
    assert_eq!(display, Some(String::from("4")));
}

#[test]
fn several_pairs_passed_in_one_frame_score_one_each() {
    let mut bird = Some(Bird { dy: 0, score: 8, fly_pressed: false, x: 0, y: 0 });
    let mut pipes = pair_at(-200_000_000, 5);
    pipes.extend(pair_at(-100_000_000, -5));
    pipes.extend(pair_at(100_000_000, 0));
    let mut display = Some(String::from("8"));
    assert_eq!(ScoreSystem::run(&mut bird, &mut pipes, &mut display), 2);
    assert_eq!(bird.unwrap().score, 10);
    assert_eq!(display, Some(String::from("10")));
    let flags: Vec<bool> = pipes.iter().map(|p| p.is_scored).collect();
    assert_eq!(flags, vec![true, false, true, false, false, false]);
}

#[test]
fn score_without_a_bird_changes_nothing() {
    let mut bird: Option<Bird> = None;
    let mut pipes = pair_at(-100_000_000, 0);
    let mut display = Some(String::from("3"));
    assert_eq!(ScoreSystem::run(&mut bird, &mut pipes, &mut display), 0);
    assert_eq!(bird, None);
    assert_eq!(pipes, pair_at(-100_000_000, 0));
    assert_eq!(display, Some(String::from("3")));
}

#[test]
fn score_stops_at_the_end_of_the_range() {
    let mut bird = Some(Bird { dy: 0, score: u32::MAX, fly_pressed: false, x: 0, y: 0 });
    let mut pipes = pair_at(-100_000_000, 0);
    let mut display = Some(String::from("x"));
    assert_eq!(ScoreSystem::run(&mut bird, &mut pipes, &mut display), 1);
    assert_eq!(bird.unwrap().score, u32::MAX);
    assert!(pipes[0].is_scored);
    assert_eq!(display, Some(String::from("4294967295")));
}
