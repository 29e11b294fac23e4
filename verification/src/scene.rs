use vstd::prelude::*;

verus! {

use crate::back_forth::{
    BackAndForthAnimation, BackAndForthAnimationMessage, PenguinSprite,
};
use crate::balloon::{
    BalloonAnimation, BalloonAnimationMessage, DRIFT_BOUND, HOVER_BOUND,
};
use crate::copter::{
    BOB_BOUND, COPTER_HOVER_BOUND, CopterAnimation, CopterAnimationMessage,
};
use crate::units::MAX_DIM;

#[derive(Clone, Copy, Debug, PartialEq, Eq, Structural)]
pub enum AnimationMessage {
    Tick,
    BackAndForthMessage(BackAndForthAnimationMessage),
    BalloonMessage(BalloonAnimationMessage),
    CopterMessage(CopterAnimationMessage),
}

/// The sinusoidal offsets the host computed for one balloon for one tick.
#[derive(Clone, Copy, Debug)]
pub struct BalloonOffsets {
    pub drift: i64,
    pub hover: i64,
}

/// The sinusoidal offsets the host computed for one helicopter for one tick.
#[derive(Clone, Copy, Debug)]
pub struct CopterOffsets {
    pub bob: i64,
    pub hover: i64,
}

/// Per-entity sinusoidal offsets for one tick, one entry per entity of the
/// kind the message addresses.
pub struct TrigInputs {
    pub balloon: Vec<BalloonOffsets>,
    pub copter: Vec<CopterOffsets>,
}

pub open spec fn balloon_offsets_ok(v: Seq<BalloonOffsets>) -> bool {
    forall|i: int|
        0 <= i < v.len() ==> -DRIFT_BOUND <= #[trigger] v[i].drift <= DRIFT_BOUND
            && -HOVER_BOUND <= v[i].hover <= HOVER_BOUND
}

pub open spec fn copter_offsets_ok(v: Seq<CopterOffsets>) -> bool {
    forall|i: int|
        0 <= i < v.len() ==> -BOB_BOUND <= #[trigger] v[i].bob <= BOB_BOUND
            && -COPTER_HOVER_BOUND <= v[i].hover <= COPTER_HOVER_BOUND
}

/// Which bitmap one placement instruction draws.
#[derive(Clone, Copy, Debug, PartialEq, Eq, Structural)]
pub enum SpriteSelector {
    /// A frame of one of the walking penguin strips.
    Walker(PenguinSprite, usize),
    BalloonWithPenguinSprite,
    BalloonWithoutPenguinSprite,
    CopterSprite,
}

/// One "draw this sprite at this rectangle" instruction, in fixed-point
/// coordinates. The host scales the rectangle down and blits the bitmap.
#[derive(Clone, Copy, Debug, PartialEq, Eq, Structural)]
pub struct SpriteInstruction {
    pub sprite: SpriteSelector,
    pub x: i64,
    pub y: i64,
    pub width: i64,
    pub height: i64,
}

/// The whole overlay: one walker, balloon, and helicopter trio per spawned
/// group, the one-shot landing flags, and the spawn clock.
pub struct Animation {
    pub back_and_forth_animation: Vec<BackAndForthAnimation>,
    pub balloon_animation: Vec<BalloonAnimation>,
    pub copter_animation: Vec<CopterAnimation>,
    pub balloon_landed: Vec<bool>,
    pub screen_size: (u32, u32),
    pub animations_to_be_spawned: i32,
    pub bottom_y_pos: i64,
}

/// How many extra trios the spawn clock has released: one as each multiple of
/// 200 up to 1000 passes.
pub open spec fn spawned_count(n: int) -> int {
    if n <= 200 {
        0
    } else if n <= 400 {
        1
    } else if n <= 600 {
        2
    } else if n <= 800 {
        3
    } else if n <= 1000 {
        4
    } else {
        5
    }
}

/// A tick spawns a fresh trio when the clock sits on a multiple of 200
/// between 200 and 1000.
pub open spec fn spawn_due(n: int) -> bool {
    n % 200 == 0 && 200 <= n <= 1000
}

/// Law: a well-formed overlay never holds more than six groups, so the seven
/// one-shot landing flags always cover every group.
pub proof fn lemma_groups_never_outgrow_the_flags(s: Animation)
    requires
        s.wf(),
    ensures
        s.group_count() <= 6,
        s.group_count() <= s.balloon_landed@.len(),
{
}

impl Animation {
    pub open spec fn group_count(self) -> int {
        self.balloon_animation@.len() as int
    }

    pub open spec fn wf(self) -> bool {
        &&& 631 <= self.screen_size.0 <= MAX_DIM
        &&& 1 <= self.screen_size.1 <= MAX_DIM
        &&& 0 <= self.animations_to_be_spawned <= 1001
        &&& self.group_count() == 1 + spawned_count(self.animations_to_be_spawned as int)
        &&& self.back_and_forth_animation@.len() == self.group_count()
        &&& self.copter_animation@.len() == self.group_count()
        &&& self.balloon_landed@.len() == 7
        &&& forall|i: int|
            0 <= i < self.group_count() ==> (#[trigger] self.back_and_forth_animation@[i]).wf()
        &&& forall|i: int|
            0 <= i < self.group_count() ==> (#[trigger] self.balloon_animation@[i]).wf()
        &&& forall|i: int|
            0 <= i < self.group_count() ==> (#[trigger] self.copter_animation@[i]).wf()
        &&& self.bottom_y_pos == self.screen_size.1 - 60
    }

    /// The scalar fields no entity update touches.
    pub open spec fn same_frame(pre: Self, post: Self) -> bool {
        &&& post.screen_size == pre.screen_size
        &&& post.bottom_y_pos == pre.bottom_y_pos
    }

    /// What one spawn-clock tick does: on a due clock a fresh trio is pushed
    /// and the clock advances; past the last spawn the tick is inert; in
    /// between only the clock advances.
    pub open spec fn tick_rel(pre: Self, post: Self) -> bool {
        if spawn_due(pre.animations_to_be_spawned as int) {
            &&& post.animations_to_be_spawned == pre.animations_to_be_spawned + 1
            &&& post.balloon_animation@.len() == pre.balloon_animation@.len() + 1
            &&& post.balloon_animation@.subrange(0, pre.balloon_animation@.len() as int)
                == pre.balloon_animation@
            &&& post.balloon_animation@.last().fresh(pre.screen_size)
            &&& post.back_and_forth_animation@.len() == pre.back_and_forth_animation@.len() + 1
            &&& post.back_and_forth_animation@.subrange(
                0,
                pre.back_and_forth_animation@.len() as int,
            ) == pre.back_and_forth_animation@
            &&& post.back_and_forth_animation@.last().fresh(pre.screen_size)
            &&& post.copter_animation@.len() == pre.copter_animation@.len() + 1
            &&& post.copter_animation@.subrange(0, pre.copter_animation@.len() as int)
                == pre.copter_animation@
            &&& post.copter_animation@.last().fresh(pre.screen_size)
            &&& post.balloon_landed@ == pre.balloon_landed@
            &&& Self::same_frame(pre, post)
        } else if pre.animations_to_be_spawned > 1000 {
            post == pre
        } else {
            &&& post.animations_to_be_spawned == pre.animations_to_be_spawned + 1
            &&& post.balloon_animation@ == pre.balloon_animation@
            &&& post.back_and_forth_animation@ == pre.back_and_forth_animation@
            &&& post.copter_animation@ == pre.copter_animation@
            &&& post.balloon_landed@ == pre.balloon_landed@
            &&& Self::same_frame(pre, post)
        }
    }

    /// Everything one `update` call guarantees, by message kind.
    pub open spec fn update_rel(
        pre: Self,
        post: Self,
        message: AnimationMessage,
        trig: TrigInputs,
    ) -> bool {
        match message {
            AnimationMessage::Tick => Self::tick_rel(pre, post),
            AnimationMessage::BackAndForthMessage(_) => {
                &&& post.back_and_forth_animation@.len() == pre.back_and_forth_animation@.len()
                &&& forall|i: int|
                    0 <= i < pre.back_and_forth_animation@.len()
                        ==> BackAndForthAnimation::tick_rel(
                        pre.back_and_forth_animation@[i],
                        #[trigger] post.back_and_forth_animation@[i],
                    )
                &&& post.balloon_animation@ == pre.balloon_animation@
                &&& post.copter_animation@ == pre.copter_animation@
                &&& post.balloon_landed@ == pre.balloon_landed@
                &&& post.animations_to_be_spawned == pre.animations_to_be_spawned
                &&& Self::same_frame(pre, post)
            },
            AnimationMessage::BalloonMessage(_) => {
                &&& post.balloon_animation@.len() == pre.balloon_animation@.len()
                &&& forall|i: int|
                    0 <= i < pre.balloon_animation@.len()
                        ==> #[trigger] post.balloon_animation@[i]
                        == pre.balloon_animation@[i].tick_spec(
                        trig.balloon@[i].drift as int,
                        trig.balloon@[i].hover as int,
                    )
                &&& post.back_and_forth_animation@ == pre.back_and_forth_animation@
                &&& post.copter_animation@ == pre.copter_animation@
                &&& post.balloon_landed@ == pre.balloon_landed@
                &&& post.animations_to_be_spawned == pre.animations_to_be_spawned
                &&& Self::same_frame(pre, post)
            },
            AnimationMessage::CopterMessage(_) => {
                &&& post.copter_animation@.len() == pre.copter_animation@.len()
                &&& forall|i: int|
                    0 <= i < pre.copter_animation@.len()
                        ==> #[trigger] post.copter_animation@[i]
                        == pre.copter_animation@[i].tick_spec(
                        trig.copter@[i].bob as int,
                        trig.copter@[i].hover as int,
                    )
                &&& post.back_and_forth_animation@ == pre.back_and_forth_animation@
                &&& post.balloon_animation@ == pre.balloon_animation@
                &&& post.balloon_landed@ == pre.balloon_landed@
                &&& post.animations_to_be_spawned == pre.animations_to_be_spawned
                &&& Self::same_frame(pre, post)
            },
        }
    }

    pub fn new(screen_size: (u32, u32)) -> (r: Self)
        requires
            631 <= screen_size.0 <= MAX_DIM,
            1 <= screen_size.1 <= MAX_DIM,
        ensures
            r.wf(),
            r.screen_size == screen_size,
            r.animations_to_be_spawned == 0,
            r.group_count() == 1,
            r.back_and_forth_animation@[0].fresh(screen_size),
            r.balloon_animation@[0].fresh(screen_size),
            r.copter_animation@[0].fresh(screen_size),
            forall|i: int| 0 <= i < 7 ==> !(#[trigger] r.balloon_landed@[i]),
    {
        let y_pos: i64 = screen_size.1 as i64 - 60;

        let mut back_and_forth_animation: Vec<BackAndForthAnimation> = Vec::new();
        back_and_forth_animation.push(BackAndForthAnimation::new(screen_size));

        let mut balloon_animation: Vec<BalloonAnimation> = Vec::new();
        balloon_animation.push(BalloonAnimation::new(screen_size));

        let mut copter_animation: Vec<CopterAnimation> = Vec::new();
        copter_animation.push(CopterAnimation::new(screen_size));

        let mut balloon_landed: Vec<bool> = Vec::new();
        let mut i: usize = 0;
        while i < 7
            invariant
                i <= 7,
                balloon_landed@.len() == i,
                forall|j: int| 0 <= j < i ==> !(#[trigger] balloon_landed@[j]),
            decreases 7 - i,
        {
            balloon_landed.push(false);
            i = i + 1;
        }

        Animation {
            back_and_forth_animation,
            balloon_animation,
            balloon_landed,
            screen_size,
            animations_to_be_spawned: 0,
            copter_animation,
            bottom_y_pos: y_pos,
        }
    }

    /// Dispatch one message: the spawn-clock tick, or one kinematic tick for
    /// every entity of the addressed kind. `trig` carries this tick's
    /// sinusoidal offsets for the kind that needs them.
    pub fn update(&mut self, message: AnimationMessage, trig: &TrigInputs)
        requires
            old(self).wf(),
            message matches AnimationMessage::BalloonMessage(_) ==> {
                &&& trig.balloon@.len() == old(self).balloon_animation@.len()
                &&& balloon_offsets_ok(trig.balloon@)
            },
            message matches AnimationMessage::CopterMessage(_) ==> {
                &&& trig.copter@.len() == old(self).copter_animation@.len()
                &&& copter_offsets_ok(trig.copter@)
            },
        ensures
            final(self).wf(),
            Self::update_rel(*old(self), *final(self), message, *trig),
    {
        match message {
            AnimationMessage::Tick => {
                if self.animations_to_be_spawned % 200 == 0
                    && self.animations_to_be_spawned <= 1000
                    && self.animations_to_be_spawned >= 200
                {
                    self.balloon_animation.push(BalloonAnimation::new(self.screen_size));
                    self.back_and_forth_animation.push(
                        BackAndForthAnimation::new(self.screen_size),
                    );
                    self.copter_animation.push(CopterAnimation::new(self.screen_size));
                    self.animations_to_be_spawned = self.animations_to_be_spawned + 1;
                    proof {
                        assert(self.balloon_animation@.subrange(
                            0,
                            old(self).balloon_animation@.len() as int,
                        ) =~= old(self).balloon_animation@);
                        assert(self.back_and_forth_animation@.subrange(
                            0,
                            old(self).back_and_forth_animation@.len() as int,
                        ) =~= old(self).back_and_forth_animation@);
                        assert(self.copter_animation@.subrange(
                            0,
                            old(self).copter_animation@.len() as int,
                        ) =~= old(self).copter_animation@);
                    }
                } else if self.animations_to_be_spawned > 1000 {
                    // every spawn has happened; the clock stands still
                } else {
                    self.animations_to_be_spawned = self.animations_to_be_spawned + 1;
                }
            }
            AnimationMessage::BackAndForthMessage(msg) => {
                let group_total: usize = self.back_and_forth_animation.len();
                let mut idx: usize = 0;
                while idx < group_total
                    invariant
                        idx <= group_total,
                        group_total == self.back_and_forth_animation@.len(),
                        group_total == old(self).back_and_forth_animation@.len(),
                        forall|j: int|
                            0 <= j < idx ==> BackAndForthAnimation::tick_rel(
                                old(self).back_and_forth_animation@[j],
                                #[trigger] self.back_and_forth_animation@[j],
                            ),
                        forall|j: int|
                            idx <= j < group_total ==> self.back_and_forth_animation@[j]
                                == old(self).back_and_forth_animation@[j],
                        forall|j: int|
                            0 <= j < group_total
                                ==> (#[trigger] old(self).back_and_forth_animation@[j]).wf(),
                        self.balloon_animation@ == old(self).balloon_animation@,
                        self.copter_animation@ == old(self).copter_animation@,
                        self.balloon_landed@ == old(self).balloon_landed@,
                        self.screen_size == old(self).screen_size,
                        self.animations_to_be_spawned == old(self).animations_to_be_spawned,
                        self.bottom_y_pos == old(self).bottom_y_pos,
                    decreases group_total - idx,
                {
                    let mut item = self.back_and_forth_animation[idx];
                    item.update(msg);
                    self.back_and_forth_animation[idx] = item;
                    idx = idx + 1;
                }
            }
            AnimationMessage::BalloonMessage(msg) => {
                let group_total: usize = self.balloon_animation.len();
                let mut idx: usize = 0;
                while idx < group_total
                    invariant
                        idx <= group_total,
                        group_total == self.balloon_animation@.len(),
                        group_total == old(self).balloon_animation@.len(),
                        trig.balloon@.len() == group_total,
                        balloon_offsets_ok(trig.balloon@),
                        forall|j: int|
                            0 <= j < idx ==> #[trigger] self.balloon_animation@[j]
                                == old(self).balloon_animation@[j].tick_spec(
                                trig.balloon@[j].drift as int,
                                trig.balloon@[j].hover as int,
                            ),
                        forall|j: int|
                            0 <= j < idx ==> (#[trigger] self.balloon_animation@[j]).wf(),
                        forall|j: int|
                            idx <= j < group_total ==> self.balloon_animation@[j]
                                == old(self).balloon_animation@[j],
                        forall|j: int|
                            0 <= j < group_total
                                ==> (#[trigger] old(self).balloon_animation@[j]).wf(),
                        self.back_and_forth_animation@ == old(self).back_and_forth_animation@,
                        self.copter_animation@ == old(self).copter_animation@,
                        self.balloon_landed@ == old(self).balloon_landed@,
                        self.screen_size == old(self).screen_size,
                        self.animations_to_be_spawned == old(self).animations_to_be_spawned,
                        self.bottom_y_pos == old(self).bottom_y_pos,
                    decreases group_total - idx,
                {
                    let offsets = trig.balloon[idx];
                    let mut item = self.balloon_animation[idx];
                    item.update(msg, offsets.drift, offsets.hover);
                    self.balloon_animation[idx] = item;
                    idx = idx + 1;
                }
            }
            AnimationMessage::CopterMessage(msg) => {
                let group_total: usize = self.copter_animation.len();
                let mut idx: usize = 0;
                while idx < group_total
                    invariant
                        idx <= group_total,
                        group_total == self.copter_animation@.len(),
                        group_total == old(self).copter_animation@.len(),
                        trig.copter@.len() == group_total,
                        copter_offsets_ok(trig.copter@),
                        forall|j: int|
                            0 <= j < idx ==> #[trigger] self.copter_animation@[j]
                                == old(self).copter_animation@[j].tick_spec(
                                trig.copter@[j].bob as int,
                                trig.copter@[j].hover as int,
                            ),
                        forall|j: int|
                            0 <= j < idx ==> (#[trigger] self.copter_animation@[j]).wf(),
                        forall|j: int|
                            idx <= j < group_total ==> self.copter_animation@[j]
                                == old(self).copter_animation@[j],
                        forall|j: int|
                            0 <= j < group_total
                                ==> (#[trigger] old(self).copter_animation@[j]).wf(),
                        self.back_and_forth_animation@ == old(self).back_and_forth_animation@,
                        self.balloon_animation@ == old(self).balloon_animation@,
                        self.balloon_landed@ == old(self).balloon_landed@,
                        self.screen_size == old(self).screen_size,
                        self.animations_to_be_spawned == old(self).animations_to_be_spawned,
                        self.bottom_y_pos == old(self).bottom_y_pos,
                    decreases group_total - idx,
                {
                    let offsets = trig.copter[idx];
                    let mut item = self.copter_animation[idx];
                    item.update(msg, offsets.bob, offsets.hover);
                    self.copter_animation[idx] = item;
                    idx = idx + 1;
                }
            }
        }
    }
    /// The two placement instructions group `idx` contributes, read off a
    /// state: once the group's balloon has landed, the walker and the empty
    /// balloon; before that, the helicopter and the balloon still carrying
    /// the penguin. Every instruction passes the sprite height as the
    /// rectangle width and the width as the height; the sprites are squares,
    /// so nothing is distorted.
    pub open spec fn draw_pair(s: Self, idx: int) -> (SpriteInstruction, SpriteInstruction) {
        let bf = s.back_and_forth_animation@[idx];
        let bal = s.balloon_animation@[idx];
        let cop = s.copter_animation@[idx];
        if bal.landed {
            (
                SpriteInstruction {
                    sprite: SpriteSelector::Walker(
                        BackAndForthAnimation::sprite_for(bf.direction),
                        bf.frame_counter as usize,
                    ),
                    x: bf.current_pos_x,
                    y: bf.current_pos_y,
                    width: bf.sprite_height,
                    height: bf.sprite_width,
                },
                SpriteInstruction {
                    sprite: SpriteSelector::BalloonWithoutPenguinSprite,
                    x: bal.current_pos_x,
                    y: bal.current_pos_y,
                    width: bal.sprite_height,
                    height: bal.sprite_width,
                },
            )
        } else {
            (
                SpriteInstruction {
                    sprite: SpriteSelector::CopterSprite,
                    x: cop.current_pos_x,
                    y: cop.current_pos_y,
                    width: cop.sprite_height,
                    height: cop.sprite_width,
                },
                SpriteInstruction {
                    sprite: SpriteSelector::BalloonWithPenguinSprite,
                    x: bal.current_pos_x,
                    y: bal.current_pos_y,
                    width: bal.sprite_height,
                    height: bal.sprite_width,
                },
            )
        }
    }

    /// The first time a group is drawn after its balloon lands, the walker is
    /// snapped to the balloon's column and the one-shot flag is set.
    pub open spec fn snap_due(self, idx: int) -> bool {
        self.balloon_animation@[idx].landed && !self.balloon_landed@[idx]
    }

    /// Build the two instructions for group `idx`, snapping the walker under
    /// the balloon on the first draw after the landing.
    pub fn draw_balloon_and_penguin(&mut self, idx: usize) -> (r: (
        SpriteInstruction,
        SpriteInstruction,
    ))
        requires
            old(self).wf(),
            idx < old(self).group_count(),
        ensures
            final(self).wf(),
            final(self).balloon_landed@ == old(self).balloon_landed@.update(
                idx as int,
                old(self).balloon_landed@[idx as int]
                    || old(self).balloon_animation@[idx as int].landed,
            ),
            final(self).back_and_forth_animation@ == if old(self).snap_due(idx as int) {
                old(self).back_and_forth_animation@.update(
                    idx as int,
                    (BackAndForthAnimation {
                        current_pos_x: old(self).balloon_animation@[idx as int].current_pos_x,
                        ..old(self).back_and_forth_animation@[idx as int]
                    }),
                )
            } else {
                old(self).back_and_forth_animation@
            },
            final(self).balloon_animation@ == old(self).balloon_animation@,
            final(self).copter_animation@ == old(self).copter_animation@,
            final(self).animations_to_be_spawned == old(self).animations_to_be_spawned,
            Self::same_frame(*old(self), *final(self)),
            r == Self::draw_pair(*final(self), idx as int),
    {
        let balloon = self.balloon_animation[idx];
        if balloon.landed {
            if !self.balloon_landed[idx] {
                self.balloon_landed[idx] = true;
                let mut walker = self.back_and_forth_animation[idx];
                walker.current_pos_x = balloon.current_pos_x;
                self.back_and_forth_animation[idx] = walker;
            } else {
                self.balloon_landed[idx] = true;
            }
            let walker = self.back_and_forth_animation[idx];
            let (sprite, frame) = walker.current_sprite_frame();
            (
                SpriteInstruction {
                    sprite: SpriteSelector::Walker(sprite, frame),
                    x: walker.current_pos_x,
                    y: walker.current_pos_y,
                    width: walker.sprite_height,
                    height: walker.sprite_width,
                },
                SpriteInstruction {
                    sprite: SpriteSelector::BalloonWithoutPenguinSprite,
                    x: balloon.current_pos_x,
                    y: balloon.current_pos_y,
                    width: balloon.sprite_height,
                    height: balloon.sprite_width,
                },
            )
        } else {
            proof {
                assert(self.balloon_landed@ =~= old(self).balloon_landed@.update(
                    idx as int,
                    old(self).balloon_landed@[idx as int],
                ));
            }
            let copter = self.copter_animation[idx];
            (
                SpriteInstruction {
                    sprite: SpriteSelector::CopterSprite,
                    x: copter.current_pos_x,
                    y: copter.current_pos_y,
                    width: copter.sprite_height,
                    height: copter.sprite_width,
                },
                SpriteInstruction {
                    sprite: SpriteSelector::BalloonWithPenguinSprite,
                    x: balloon.current_pos_x,
                    y: balloon.current_pos_y,
                    width: balloon.sprite_height,
                    height: balloon.sprite_width,
                },
            )
        }
    }

    /// The instruction list for one redraw: two instructions per group, in
    /// group order, after applying every due landing snap.
    pub fn draw(&mut self) -> (out: Vec<SpriteInstruction>)
        requires
            old(self).wf(),
        ensures
            final(self).wf(),
            out@.len() == 2 * old(self).group_count(),
            forall|i: int|
                0 <= i < old(self).group_count() ==> {
                    &&& out@[2 * i] == Self::draw_pair(*final(self), i).0
                    &&& out@[2 * i + 1] == Self::draw_pair(*final(self), i).1
                },
            final(self).balloon_animation@ == old(self).balloon_animation@,
            final(self).copter_animation@ == old(self).copter_animation@,
            final(self).animations_to_be_spawned == old(self).animations_to_be_spawned,
            Self::same_frame(*old(self), *final(self)),
            final(self).balloon_landed@.len() == old(self).balloon_landed@.len(),
            forall|i: int|
                0 <= i < old(self).group_count() ==> final(self).balloon_landed@[i] == (
                old(self).balloon_landed@[i] || old(self).balloon_animation@[i].landed),
            forall|i: int|
                old(self).group_count() <= i < old(self).balloon_landed@.len()
                    ==> final(self).balloon_landed@[i] == old(self).balloon_landed@[i],
            final(self).back_and_forth_animation@.len()
                == old(self).back_and_forth_animation@.len(),
            forall|i: int|
                0 <= i < old(self).group_count()
                    ==> #[trigger] final(self).back_and_forth_animation@[i]
                    == if old(self).snap_due(i) {
                    (BackAndForthAnimation {
                        current_pos_x: old(self).balloon_animation@[i].current_pos_x,
                        ..old(self).back_and_forth_animation@[i]
                    })
                } else {
                    old(self).back_and_forth_animation@[i]
                },
    {
        let group_total: usize = self.balloon_animation.len();
        let mut out: Vec<SpriteInstruction> = Vec::new();
        let mut idx: usize = 0;
        while idx < group_total
            invariant
                idx <= group_total,
                group_total == old(self).group_count(),
                self.wf(),
                out@.len() == 2 * idx,
                self.balloon_animation@ == old(self).balloon_animation@,
                self.copter_animation@ == old(self).copter_animation@,
                self.animations_to_be_spawned == old(self).animations_to_be_spawned,
                Self::same_frame(*old(self), *self),
                self.balloon_landed@.len() == old(self).balloon_landed@.len(),
                forall|i: int|
                    0 <= i < idx ==> self.balloon_landed@[i] == (old(self).balloon_landed@[i]
                        || old(self).balloon_animation@[i].landed),
                forall|i: int|
                    idx <= i < self.balloon_landed@.len() ==> self.balloon_landed@[i] == old(
                        self,
                    ).balloon_landed@[i],
                self.back_and_forth_animation@.len() == old(
                    self,
                ).back_and_forth_animation@.len(),
                forall|i: int|
                    0 <= i < idx ==> #[trigger] self.back_and_forth_animation@[i] == if old(
                        self,
                    ).snap_due(i) {
                        (BackAndForthAnimation {
                            current_pos_x: old(self).balloon_animation@[i].current_pos_x,
                            ..old(self).back_and_forth_animation@[i]
                        })
                    } else {
                        old(self).back_and_forth_animation@[i]
                    },
                forall|i: int|
                    idx <= i < self.back_and_forth_animation@.len()
                        ==> self.back_and_forth_animation@[i]
                        == old(self).back_and_forth_animation@[i],
                forall|i: int|
                    0 <= i < idx ==> {
                        &&& out@[2 * i] == Self::draw_pair(*self, i).0
                        &&& out@[2 * i + 1] == Self::draw_pair(*self, i).1
                    },
            decreases group_total - idx,
        {
            let ghost prev = *self;
            let pair = self.draw_balloon_and_penguin(idx);
            out.push(pair.0);
            out.push(pair.1);
            proof {
                assert forall|i: int| 0 <= i < idx as int implies #[trigger] Self::draw_pair(
                    *self,
                    i,
                ) == Self::draw_pair(prev, i) by {
                    assert(self.back_and_forth_animation@[i]
                        == prev.back_and_forth_animation@[i]);
                    assert(self.balloon_animation@[i] == prev.balloon_animation@[i]);
                    assert(self.copter_animation@[i] == prev.copter_animation@[i]);
                }
            }
            idx = idx + 1;
        }
        out
    }
}

} // verus!
