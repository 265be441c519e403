use flappy_bird::background::{Background, BackgroundSystem, BackgroundType};

#[test]
fn far_layer_scrolls_thirty_pixels_a_second() {
    let mut b = Background::new(BackgroundType::Background, 0);
    b.advance(1_000_000);
    assert_eq!(b.scroll_pos, 30_000_000);
    assert_eq!(b.x, 260_000_000);
    assert_eq!(b.y, 0);
    assert_eq!(b.b_type, BackgroundType::Background);
}

#[test]
fn ground_scrolls_sixty_one_pixels_a_second() {
    let mut b = Background::new(BackgroundType::Ground, -138_000_000);
    b.advance(1_000_000);
    assert_eq!(b.scroll_pos, 61_000_000);
    assert_eq!(b.x, 229_000_000);
    assert_eq!(b.y, -138_000_000);
}

#[test]
fn scroll_offset_wraps_at_the_looping_point() {
    let mut b = Background { b_type: BackgroundType::Ground, scroll_pos: 400_000_000, x: 0, y: 0 };
    b.advance(1_000_000);
    assert_eq!(b.scroll_pos, 48_000_000);
    assert_eq!(b.x, 242_000_000);
}

#[test]
fn scroll_offset_reaching_the_looping_point_becomes_zero() {
    let mut b = Background { b_type: BackgroundType::Background, scroll_pos: 412_999_970, x: 0, y: 0 };
    b.advance(1);
    assert_eq!(b.scroll_pos, 0);
    assert_eq!(b.x, 290_000_000);
}

#[test]
fn scroll_offset_stays_in_range_for_the_longest_frame() {
    let mut far = Background::new(BackgroundType::Background, 0);
    far.advance(u32::MAX);
    assert_eq!(far.scroll_pos, 406_018_850);
    let mut ground = Background::new(BackgroundType::Ground, 0);
    ground.advance(u32::MAX);
    assert_eq!(ground.scroll_pos, 151_004_995);
}

#[test]
fn scroll_offset_out_of_range_is_brought_back() {
    let mut b = Background { b_type: BackgroundType::Background, scroll_pos: -1, x: 0, y: 0 };
    b.advance(0);
    assert_eq!(b.scroll_pos, 412_999_999);
    let mut c = Background { b_type: BackgroundType::Background, scroll_pos: -413_000_000, x: 0, y: 0 };
    c.advance(0);
    assert_eq!(c.scroll_pos, 0);
    let mut d = Background { b_type: BackgroundType::Ground, scroll_pos: i64::MAX, x: 0, y: 0 };
    d.advance(u32::MAX);
    assert!(0 <= d.scroll_pos && d.scroll_pos < 413_000_000);
    let mut e = Background { b_type: BackgroundType::Ground, scroll_pos: i64::MIN, x: 0, y: 0 };
    e.advance(7);
    assert!(0 <= e.scroll_pos && e.scroll_pos < 413_000_000);
}

#[test]
fn zero_length_frame_leaves_a_layer_in_place() {
    let mut b = Background { b_type: BackgroundType::Ground, scroll_pos: 5, x: 289_999_995, y: 3 };
    b.advance(0);
    assert_eq!(b, Background { b_type: BackgroundType::Ground, scroll_pos: 5, x: 289_999_995, y: 3 });
}

#[test]
fn background_system_advances_every_layer() {
    let mut layers = vec![
        Background::new(BackgroundType::Background, 0),
        Background::new(BackgroundType::Ground, -138_000_000),
    ];
    BackgroundSystem::run(&mut layers, 500_000);
    assert_eq!(layers.len(), 2);
    assert_eq!(layers[0].scroll_pos, 15_000_000);
    assert_eq!(layers[0].x, 275_000_000);
    assert_eq!(layers[1].scroll_pos, 30_500_000);
    assert_eq!(layers[1].x, 259_500_000);
    let mut none: Vec<Background> = Vec::new();
    BackgroundSystem::run(&mut none, 500_000);
    assert!(none.is_empty());
}
