use penguin_overlay::back_forth::{
    BackAndForthAnimation, BackAndForthAnimationMessage, BackAndForthAnimationState,
};

fn fresh() -> BackAndForthAnimation {
    BackAndForthAnimation::new((800, 600))
}

#[test]
fn starts_at_the_bottom_left() {
    for _ in 0..50 {
        let w = fresh();
        assert_eq!(w.current_pos_x, 0);
        assert_eq!(w.current_pos_y, (600 - 50) * 100);
        assert_eq!(w.counter, 0);
        assert_eq!(w.frame_counter, 0);
        assert_eq!(w.direction, BackAndForthAnimationState::RightAnimation);
        assert!(w.turn_point >= 300);
        assert!(w.turn_point <= 800 - 51);
        assert!(w.start_point >= 500);
        if w.turn_point > 305 {
            assert!(w.start_point <= (w.turn_point as i64 - 301) * 100);
        } else {
            assert_eq!(w.start_point, 500);
        }
        assert_eq!(w.previous_start_point, w.start_point);
        assert_eq!(w.next_start_point, w.start_point);
        assert!(!w.should_go_left);
    }
}

#[test]
fn walks_right_one_pixel_per_tick() {
    let mut w = fresh();
    w.update(BackAndForthAnimationMessage::Tick);
    assert_eq!(w.current_pos_x, 100);
    assert_eq!(w.counter, 1);
    assert_eq!(w.frame_counter, 1);
    assert_eq!(w.direction, BackAndForthAnimationState::RightAnimation);

    let mut prev = w.current_pos_x;
    for _ in 0..29 {
        w.update(BackAndForthAnimationMessage::Tick);
        assert!(w.current_pos_x == prev + 100);
        prev = w.current_pos_x;
    }
}

#[test]
fn turns_at_the_turn_point_thresholds() {
    let mut w = fresh();
    let tp = w.turn_point;

    // the walk stays rightward until the counter reaches the first window
    for _ in 0..(tp - 48) {
        w.update(BackAndForthAnimationMessage::Tick);
    }
    assert_eq!(w.direction, BackAndForthAnimationState::RightAnimation);
    assert_eq!(w.counter, tp - 48);
    assert_eq!(w.current_pos_x, (tp as i64 - 48) * 100);

    // one more tick enters the right-to-front turn, frozen in place
    w.update(BackAndForthAnimationMessage::Tick);
    assert_eq!(w.direction, BackAndForthAnimationState::RightToFront);
    assert_eq!(w.counter, tp - 47);
    assert_eq!(w.frame_counter, 1);
    assert_eq!(w.current_pos_x, (tp as i64 - 48) * 100);
}

#[test]
fn phases_follow_the_cycle_order() {
    let mut w = fresh();
    let mut phases = Vec::new();
    let mut last = w.direction;
    for _ in 0..5_000 {
        w.update(BackAndForthAnimationMessage::Tick);
        assert!(w.frame_counter >= 0 && w.frame_counter < 40);
        if w.direction != last {
            phases.push(w.direction);
            last = w.direction;
        }
        if phases.len() == 6 {
            break;
        }
    }
    assert_eq!(
        phases,
        vec![
            BackAndForthAnimationState::RightToFront,
            BackAndForthAnimationState::FrontToLeft,
            BackAndForthAnimationState::LeftAnimation,
            BackAndForthAnimationState::LeftToFront,
            BackAndForthAnimationState::FrontToRight,
            BackAndForthAnimationState::RightAnimation,
        ]
    );
}

#[test]
fn cycle_reset_redraws_the_start_point() {
    let mut w = fresh();
    let first_start = w.start_point;
    // run until the cycle resets (the phase returns to walking right)
    let mut seen_front_to_right = false;
    for _ in 0..5_000 {
        w.update(BackAndForthAnimationMessage::Tick);
        if w.direction == BackAndForthAnimationState::FrontToRight {
            seen_front_to_right = true;
        }
        if seen_front_to_right && w.direction == BackAndForthAnimationState::RightAnimation {
            break;
        }
    }
    assert_eq!(w.direction, BackAndForthAnimationState::RightAnimation);
    assert_eq!(w.counter, 1);
    assert_eq!(w.frame_counter, 1);
    assert_eq!(w.previous_start_point, first_start);
    assert_eq!(w.start_point, w.next_start_point);
    assert_eq!(w.should_go_left, w.previous_start_point > w.next_start_point);
    assert!(w.turn_point >= 300 && w.turn_point <= 800 - 51);
}

#[test]
fn leftward_start_point_skips_the_counter_ahead() {
    // after a reset that drew a start point left of the previous one, the
    // thirtieth rightward tick jumps the counter straight to the
    // right-to-front window instead of moving
    for _ in 0..200 {
        let mut w = fresh();
        // run one full cycle so the cycle resets with a fresh draw
        let mut seen_front_to_right = false;
        for _ in 0..5_000 {
            w.update(BackAndForthAnimationMessage::Tick);
            if w.direction == BackAndForthAnimationState::FrontToRight {
                seen_front_to_right = true;
            }
            if seen_front_to_right && w.direction == BackAndForthAnimationState::RightAnimation {
                break;
            }
        }
        if !w.should_go_left {
            continue;
        }
        // the reset tick already walked once; 29 more reach counter 30
        for _ in 0..29 {
            w.update(BackAndForthAnimationMessage::Tick);
        }
        assert_eq!(w.counter, 30);
        let x0 = w.current_pos_x;
        w.update(BackAndForthAnimationMessage::Tick);
        assert_eq!(w.counter, w.turn_point - 48);
        assert_eq!(w.current_pos_x, x0);
        assert!(!w.should_go_left);
        return;
    }
    panic!("no cycle ever drew a leftward start point");
}

#[test]
fn left_phase_walks_left() {
    let mut w = fresh();
    // reach the leftward walking phase
    for _ in 0..5_000 {
        w.update(BackAndForthAnimationMessage::Tick);
        if w.direction == BackAndForthAnimationState::LeftAnimation {
            break;
        }
    }
    assert_eq!(w.direction, BackAndForthAnimationState::LeftAnimation);
    let x0 = w.current_pos_x;
    if w.direction == BackAndForthAnimationState::LeftAnimation {
        w.update(BackAndForthAnimationMessage::Tick);
        assert_eq!(w.current_pos_x, x0 - 100);
    }
}

#[test]
fn turning_phases_drift_at_half_speed() {
    let mut w = fresh();
    for _ in 0..5_000 {
        w.update(BackAndForthAnimationMessage::Tick);
        if w.direction == BackAndForthAnimationState::FrontToLeft {
            break;
        }
    }
    assert_eq!(w.direction, BackAndForthAnimationState::FrontToLeft);
    let x0 = w.current_pos_x;
    let c0 = w.counter;
    if c0 < w.turn_point - 1 {
        w.update(BackAndForthAnimationMessage::Tick);
        assert_eq!(w.direction, BackAndForthAnimationState::FrontToLeft);
        assert_eq!(w.current_pos_x, x0 - 50);
        assert_eq!(w.counter, c0 + 1);
    }
}
