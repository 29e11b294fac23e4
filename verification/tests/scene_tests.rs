use penguin_overlay::back_forth::BackAndForthAnimationMessage;
use penguin_overlay::balloon::BalloonAnimationMessage;
use penguin_overlay::copter::CopterAnimationMessage;
use penguin_overlay::scene::{
    Animation, AnimationMessage, BalloonOffsets, CopterOffsets, SpriteSelector, TrigInputs,
};

fn no_trig() -> TrigInputs {
    TrigInputs { balloon: Vec::new(), copter: Vec::new() }
}

fn balloon_trig(scene: &Animation, drift: i64, hover: i64) -> TrigInputs {
    TrigInputs {
        balloon: scene
            .balloon_animation
            .iter()
            .map(|_| BalloonOffsets { drift, hover })
            .collect(),
        copter: Vec::new(),
    }
}

fn copter_trig(scene: &Animation, bob: i64, hover: i64) -> TrigInputs {
    TrigInputs {
        balloon: Vec::new(),
        copter: scene
            .copter_animation
            .iter()
            .map(|_| CopterOffsets { bob, hover })
            .collect(),
    }
}

#[test]
fn starts_with_one_group() {
    let scene = Animation::new((800, 600));
    assert_eq!(scene.back_and_forth_animation.len(), 1);
    assert_eq!(scene.balloon_animation.len(), 1);
    assert_eq!(scene.copter_animation.len(), 1);
    assert_eq!(scene.balloon_landed.len(), 7);
    assert!(scene.balloon_landed.iter().all(|landed| !*landed));
    assert_eq!(scene.animations_to_be_spawned, 0);
    assert_eq!(scene.bottom_y_pos, 600 - 60);
}

#[test]
fn spawn_clock_releases_a_group_every_200_ticks() {
    let mut scene = Animation::new((800, 600));
    let trig = no_trig();
    for tick in 1..=1_001 {
        scene.update(AnimationMessage::Tick, &trig);
        assert_eq!(scene.animations_to_be_spawned, tick);
        let expected = 1 + match tick {
            t if t > 1_000 => 5,
            t if t > 800 => 4,
            t if t > 600 => 3,
            t if t > 400 => 2,
            t if t > 200 => 1,
            _ => 0,
        };
        assert_eq!(scene.balloon_animation.len(), expected as usize);
        assert_eq!(scene.back_and_forth_animation.len(), expected as usize);
        assert_eq!(scene.copter_animation.len(), expected as usize);
    }
    // past the last spawn the clock stands still
    scene.update(AnimationMessage::Tick, &trig);
    scene.update(AnimationMessage::Tick, &trig);
    assert_eq!(scene.animations_to_be_spawned, 1_001);
    assert_eq!(scene.balloon_animation.len(), 6);
}

#[test]
fn walker_message_ticks_every_walker() {
    let mut scene = Animation::new((800, 600));
    let trig = no_trig();
    let x0 = scene.back_and_forth_animation[0].current_pos_x;
    scene.update(
        AnimationMessage::BackAndForthMessage(BackAndForthAnimationMessage::Tick),
        &trig,
    );
    assert_eq!(scene.back_and_forth_animation[0].current_pos_x, x0 + 100);
    assert_eq!(scene.balloon_animation[0].current_pos_y, 1_000);
}

#[test]
fn balloon_message_applies_the_offsets() {
    let mut scene = Animation::new((800, 600));
    let x0 = scene.balloon_animation[0].current_pos_x;
    let trig = balloon_trig(&scene, 80, 250);
    scene.update(AnimationMessage::BalloonMessage(BalloonAnimationMessage::Tick), &trig);
    assert_eq!(scene.balloon_animation[0].current_pos_y, 1_050);
    assert_eq!(scene.balloon_animation[0].current_pos_x, x0 + 80);
    assert_eq!(scene.balloon_animation[0].hover_offset, 250);
}

#[test]
fn copter_message_applies_the_offsets() {
    let mut scene = Animation::new((800, 600));
    let trig = copter_trig(&scene, 200, 0);
    scene.update(AnimationMessage::CopterMessage(CopterAnimationMessage::Tick), &trig);
    assert_eq!(scene.copter_animation[0].current_pos_y, 1_208);
    assert_eq!(scene.copter_animation[0].velocity_y, 8);
}

#[test]
fn draw_shows_the_copter_and_full_balloon_before_landing() {
    let mut scene = Animation::new((800, 600));
    let out = scene.draw();
    assert_eq!(out.len(), 2);
    assert_eq!(out[0].sprite, SpriteSelector::CopterSprite);
    assert_eq!(out[0].x, scene.copter_animation[0].current_pos_x);
    assert_eq!(out[0].y, scene.copter_animation[0].current_pos_y);
    assert_eq!(out[1].sprite, SpriteSelector::BalloonWithPenguinSprite);
    assert_eq!(out[1].x, scene.balloon_animation[0].current_pos_x);
    assert_eq!(out[1].width, 18_000);
    assert!(!scene.balloon_landed[0]);
}

#[test]
fn first_draw_after_landing_snaps_the_walker_under_the_balloon() {
    let mut scene = Animation::new((800, 600));
    // sink the balloon all the way down
    while !scene.balloon_animation[0].landed {
        let trig = balloon_trig(&scene, 0, 0);
        scene.update(AnimationMessage::BalloonMessage(BalloonAnimationMessage::Tick), &trig);
    }
    let balloon_x = scene.balloon_animation[0].current_pos_x;

    let out = scene.draw();
    assert_eq!(out.len(), 2);
    assert!(matches!(out[0].sprite, SpriteSelector::Walker(_, _)));
    assert_eq!(out[0].x, balloon_x);
    assert_eq!(out[1].sprite, SpriteSelector::BalloonWithoutPenguinSprite);
    assert!(scene.balloon_landed[0]);
    assert_eq!(scene.back_and_forth_animation[0].current_pos_x, balloon_x);

    // the snap is one-shot: a later draw leaves the walker alone
    let trig = no_trig();
    scene.update(
        AnimationMessage::BackAndForthMessage(BackAndForthAnimationMessage::Tick),
        &trig,
    );
    let walker_x = scene.back_and_forth_animation[0].current_pos_x;
    let out = scene.draw();
    assert_eq!(out[0].x, walker_x);
    assert_ne!(walker_x, balloon_x);
}
