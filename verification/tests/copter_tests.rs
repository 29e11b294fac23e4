use penguin_overlay::copter::{CopterAnimation, CopterAnimationMessage};

#[test]
fn copter_starts_between_margins() {
    for _ in 0..50 {
        let c = CopterAnimation::new((800, 600));
        assert!(c.current_pos_x >= 10_500);
        assert!(c.current_pos_x < 800 * 100 - 10_500);
        assert_eq!(c.base_x, c.current_pos_x);
        assert_eq!(c.current_pos_y, 1_000);
        assert_eq!(c.landing_y, (600 - 70) * 100);
        assert_eq!(c.velocity_y, 0);
        assert_eq!(c.time, 0);
        assert!(!c.landed);
    }
}

#[test]
fn gravity_ramps_the_descent() {
    let mut c = CopterAnimation::new((800, 600));
    c.update(CopterAnimationMessage::Tick, 0, 0);
    assert_eq!(c.time, 1);
    assert_eq!(c.velocity_y, 8);
    assert_eq!(c.current_pos_y, 1_008);

    c.update(CopterAnimationMessage::Tick, 0, 0);
    assert_eq!(c.velocity_y, 16);
    assert_eq!(c.current_pos_y, 1_024);

    // a bob offset lands on top of the gravity step
    c.update(CopterAnimationMessage::Tick, 200, 0);
    assert_eq!(c.velocity_y, 24);
    assert_eq!(c.current_pos_y, 1_248);

    // the speed caps at three pixels per tick
    for _ in 0..60 {
        c.update(CopterAnimationMessage::Tick, 0, 0);
        assert!(c.velocity_y <= 300);
    }
    assert!(!c.landed);
    assert_eq!(c.velocity_y, 300);
}

#[test]
fn lands_on_the_landing_row_with_braking() {
    let mut c = CopterAnimation::new((800, 600));
    let mut braked = false;
    let mut ticks = 0;
    while !c.landed {
        let v_before = c.velocity_y;
        c.update(CopterAnimationMessage::Tick, 0, 0);
        if !c.landed && c.velocity_y < v_before {
            // inside the braking distance the speed is damped to 92 percent
            braked = true;
            assert_eq!(c.velocity_y, (v_before + 8).min(300) * 92 / 100);
        }
        ticks += 1;
        assert!(ticks < 10_000, "never landed");
    }
    assert!(braked);
    assert_eq!(c.current_pos_y, 53_000);
    assert_eq!(c.velocity_y, 0);
}

#[test]
fn hovers_then_climbs_away() {
    // a tiny screen lands the helicopter on the first tick, with the clock
    // still inside the hover window
    let mut c = CopterAnimation::new((800, 5));
    assert_eq!(c.landing_y, (5 - 70) * 100);
    c.update(CopterAnimationMessage::Tick, 0, 0);
    assert!(c.landed);
    assert_eq!(c.time, 1);
    assert_eq!(c.current_pos_y, -6_500);
    assert_eq!(c.velocity_y, 0);

    // hovering: the row follows the landing row plus the offset
    c.update(CopterAnimationMessage::Tick, 0, 300);
    assert_eq!(c.current_pos_y, -6_200);
    assert_eq!(c.hover_offset_y, 300);
    while c.time < 100 {
        c.update(CopterAnimationMessage::Tick, 0, -300);
        assert_eq!(c.current_pos_y, -6_800);
    }

    // the tick that pushes the clock past the hover window starts the climb
    c.update(CopterAnimationMessage::Tick, 0, 0);
    assert_eq!(c.time, 101);
    assert_eq!(c.velocity_y, -15);
    assert_eq!(c.current_pos_y, -6_815);

    // the climb pins two sprite heights above the top edge
    for _ in 0..2_000 {
        c.update(CopterAnimationMessage::Tick, 0, 0);
        assert!(c.velocity_y >= -600);
    }
    assert_eq!(c.current_pos_y, -12_000);
}
