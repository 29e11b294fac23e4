use penguin_overlay::balloon::{BalloonAnimation, BalloonAnimationMessage};

fn fresh() -> BalloonAnimation {
    BalloonAnimation::new((800, 600))
}

#[test]
fn balloon_starts_between_margins() {
    for _ in 0..50 {
        let b = fresh();
        assert!(b.current_pos_x >= 31_500);
        assert!(b.current_pos_x < 800 * 100 - 31_500);
        assert_eq!(b.current_pos_y, 1_000);
        assert_eq!(b.landing_y, (600 - 200) * 100);
        assert!(!b.landed);
        assert!(b.with_penguin);
        assert_eq!(b.sprite_height, 18_000);
        assert_eq!(b.sprite_width, 18_000);
    }
}

#[test]
fn one_descending_tick_is_exact() {
    let mut b = fresh();
    let x0 = b.current_pos_x;
    b.update(BalloonAnimationMessage::Tick, 80, 500);
    assert_eq!(b.current_pos_y, 1_050);
    assert_eq!(b.current_pos_x, x0 + 80);
    assert_eq!(b.hover_offset, 500);
    assert!(!b.landed);

    b.update(BalloonAnimationMessage::Tick, -80, -500);
    assert_eq!(b.current_pos_y, 1_100);
    assert_eq!(b.current_pos_x, x0);
    assert_eq!(b.hover_offset, -500);
}

#[test]
fn lands_exactly_on_the_landing_row() {
    let mut b = fresh();
    // (40_000 - 1_000) / 50 = 780 ticks to touch down
    for t in 0..779 {
        b.update(BalloonAnimationMessage::Tick, 0, 0);
        assert!(!b.landed, "landed too early at tick {}", t);
        assert!(b.current_pos_y <= b.landing_y);
    }
    assert_eq!(b.current_pos_y, 39_950);
    b.update(BalloonAnimationMessage::Tick, 0, 0);
    assert!(b.landed);
    assert!(!b.with_penguin);
    assert_eq!(b.current_pos_y, 40_000);
}

#[test]
fn rises_after_landing_and_stops_above_the_top() {
    let mut b = fresh();
    while !b.landed {
        b.update(BalloonAnimationMessage::Tick, 0, 0);
    }
    let y_landed = b.current_pos_y;
    b.update(BalloonAnimationMessage::Tick, 0, 0);
    assert_eq!(b.current_pos_y, y_landed - 70);
    assert!(b.landed);

    // keep rising: it must eventually pin one sprite height above the top
    for _ in 0..2_000 {
        b.update(BalloonAnimationMessage::Tick, 0, 0);
    }
    assert_eq!(b.current_pos_y, -18_000);
    b.update(BalloonAnimationMessage::Tick, 0, 0);
    assert_eq!(b.current_pos_y, -18_000);
}

#[test]
fn descent_is_monotone_before_landing() {
    let mut b = fresh();
    let mut prev = b.current_pos_y;
    while !b.landed {
        b.update(BalloonAnimationMessage::Tick, 40, 100);
        assert!(b.current_pos_y > prev || b.landed);
        prev = b.current_pos_y;
    }
}
