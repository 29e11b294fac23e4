use vstd::prelude::*;

verus! {

use crate::back_forth::BackAndForthAnimationState;
use crate::balloon::BalloonAnimationState;

/// The sprite directory each walking phase reads its frames from. Both
/// front-turning phases share a strip with their mirrored counterpart, played
/// backwards (see `should_reverse_paths`).
pub open spec fn animation_folder(state: BackAndForthAnimationState) -> Seq<char> {
    match state {
        BackAndForthAnimationState::RightAnimation => "Right Animation"@,
        BackAndForthAnimationState::RightToFront => "Front to Right Animation"@,
        BackAndForthAnimationState::LeftToFront => "Front to Right Animation"@,
        BackAndForthAnimationState::LeftAnimation => "Left Animation"@,
        BackAndForthAnimationState::FrontToLeft => "Front to Left Animation"@,
        BackAndForthAnimationState::FrontToRight => "Front to Left Animation"@,
        _ => "Front to Right Animation"@,
    }
}

pub fn get_animation_folder(state: &BackAndForthAnimationState) -> (r: &'static str)
    ensures
        r@ == animation_folder(*state),
{
    match state {
        BackAndForthAnimationState::RightAnimation => "Right Animation",
        BackAndForthAnimationState::RightToFront | BackAndForthAnimationState::LeftToFront => {
            "Front to Right Animation"
        }
        BackAndForthAnimationState::LeftAnimation => "Left Animation",
        BackAndForthAnimationState::FrontToLeft | BackAndForthAnimationState::FrontToRight => {
            "Front to Left Animation"
        }
        _ => "Front to Right Animation",
    }
}

/// The phases that play their shared sprite strip backwards.
pub open spec fn reversed_phase(state: BackAndForthAnimationState) -> bool {
    state == BackAndForthAnimationState::RightToFront
        || state == BackAndForthAnimationState::LeftToFront
}

pub fn should_reverse_paths(state: &BackAndForthAnimationState) -> (r: bool)
    ensures
        r == reversed_phase(*state),
{
    matches!(
        state,
        BackAndForthAnimationState::RightToFront | BackAndForthAnimationState::LeftToFront
    )
}

/// Put a sorted list of frame paths into playing order: phases that play
/// their strip backwards get the list reversed, the rest keep it as it is.
/// The host sorts the directory listing and hands it in.
pub fn order_animation_paths(state: &BackAndForthAnimationState, sorted: Vec<String>) -> (r: Vec<
    String,
>)
    ensures
        reversed_phase(*state) ==> r@ == sorted@.reverse(),
        !reversed_phase(*state) ==> r@ == sorted@,
{
    if should_reverse_paths(state) {
        let ghost all = sorted@;
        let mut rest = sorted;
        let mut out: Vec<String> = Vec::new();
        while rest.len() > 0
            invariant
                rest@ == all.subrange(0, rest@.len() as int),
                out@.len() + rest@.len() == all.len(),
                forall|j: int|
                    0 <= j < out@.len() ==> out@[j] == all[all.len() - 1 - j],
            decreases rest.len(),
        {
            proof {
                assert(rest@[rest@.len() - 1] == all[rest@.len() - 1]);
            }
            let last = rest.pop().unwrap();
            out.push(last);
            proof {
                assert(rest@ =~= all.subrange(0, rest@.len() as int));
            }
        }
        proof {
            assert(out@ =~= all.reverse());
        }
        out
    } else {
        sorted
    }
}

/// Which entry of the sorted balloon sprite directory each balloon state is
/// drawn with.
pub open spec fn balloon_image_position(state: BalloonAnimationState) -> int {
    match state {
        BalloonAnimationState::BallonWithPenguin => 0,
        BalloonAnimationState::BalloonWithoutPenguin => 1,
        BalloonAnimationState::BalloonWithHyprlandLogo => 2,
    }
}

pub fn balloon_image_index(state: &BalloonAnimationState) -> (r: usize)
    ensures
        r == balloon_image_position(*state),
{
    match state {
        BalloonAnimationState::BallonWithPenguin => 0,
        BalloonAnimationState::BalloonWithoutPenguin => 1,
        BalloonAnimationState::BalloonWithHyprlandLogo => 2,
    }
}

} // verus!
