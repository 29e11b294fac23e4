use penguin_overlay::assets::{
    balloon_image_index, get_animation_folder, order_animation_paths, should_reverse_paths,
};
use penguin_overlay::back_forth::BackAndForthAnimationState;
use penguin_overlay::balloon::BalloonAnimationState;

#[test]
fn folder_per_state() {
    assert_eq!(
        get_animation_folder(&BackAndForthAnimationState::RightAnimation),
        "Right Animation"
    );
    assert_eq!(
        get_animation_folder(&BackAndForthAnimationState::RightToFront),
        "Front to Right Animation"
    );
    assert_eq!(
        get_animation_folder(&BackAndForthAnimationState::LeftToFront),
        "Front to Right Animation"
    );
    assert_eq!(
        get_animation_folder(&BackAndForthAnimationState::LeftAnimation),
        "Left Animation"
    );
    assert_eq!(
        get_animation_folder(&BackAndForthAnimationState::FrontToLeft),
        "Front to Left Animation"
    );
    assert_eq!(
        get_animation_folder(&BackAndForthAnimationState::FrontToRight),
        "Front to Left Animation"
    );
    assert_eq!(
        get_animation_folder(&BackAndForthAnimationState::FrontTalking),
        "Front to Right Animation"
    );
}

#[test]
fn reversal_per_state() {
    assert!(should_reverse_paths(&BackAndForthAnimationState::RightToFront));
    assert!(should_reverse_paths(&BackAndForthAnimationState::LeftToFront));
    assert!(!should_reverse_paths(&BackAndForthAnimationState::RightAnimation));
    assert!(!should_reverse_paths(&BackAndForthAnimationState::LeftAnimation));
    assert!(!should_reverse_paths(&BackAndForthAnimationState::FrontToLeft));
    assert!(!should_reverse_paths(&BackAndForthAnimationState::FrontToRight));
    assert!(!should_reverse_paths(&BackAndForthAnimationState::FrontTalking));
}

#[test]
fn ordering_reverses_only_backward_phases() {
    let paths = vec![
        String::from("frame_00.png"),
        String::from("frame_01.png"),
        String::from("frame_02.png"),
    ];
    let kept = order_animation_paths(&BackAndForthAnimationState::LeftAnimation, paths.clone());
    assert_eq!(kept, paths);

    let reversed =
        order_animation_paths(&BackAndForthAnimationState::RightToFront, paths.clone());
    assert_eq!(
        reversed,
        vec![
            String::from("frame_02.png"),
            String::from("frame_01.png"),
            String::from("frame_00.png"),
        ]
    );

    let reversed_too =
        order_animation_paths(&BackAndForthAnimationState::LeftToFront, paths.clone());
    assert_eq!(reversed_too.len(), 3);
    assert_eq!(reversed_too[0], "frame_02.png");

    let empty: Vec<String> = Vec::new();
    let still_empty =
        order_animation_paths(&BackAndForthAnimationState::RightToFront, empty);
    assert!(still_empty.is_empty());
}

#[test]
fn balloon_sprite_indices() {
    assert_eq!(balloon_image_index(&BalloonAnimationState::BallonWithPenguin), 0);
    assert_eq!(balloon_image_index(&BalloonAnimationState::BalloonWithoutPenguin), 1);
    assert_eq!(balloon_image_index(&BalloonAnimationState::BalloonWithHyprlandLogo), 2);
}
