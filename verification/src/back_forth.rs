use vstd::prelude::*;

verus! {

use crate::rng::random_in_range;
use crate::units::{COORD_LIMIT, MAX_DIM, SCALE, coord_add, coord_clamped, coord_in_range};

/// The walking phases of the penguin: it walks right, turns to face front,
/// turns left, walks left, turns to face front again, turns right, and the
/// cycle restarts from a fresh randomized turn point.
#[derive(Clone, Copy, Debug, PartialEq, Eq, Structural)]
pub enum BackAndForthAnimationState {
    RightToFront,
    FrontToLeft,
    LeftAnimation,
    FrontTalking,
    FrontToRight,
    LeftToFront,
    RightAnimation,
}

#[derive(Clone, Copy, Debug, PartialEq, Eq, Structural)]
pub enum BackAndForthAnimationMessage {
    Tick,
}

/// Which of the six sprite strips a placement instruction draws from.
#[derive(Clone, Copy, Debug, PartialEq, Eq, Structural)]
pub enum PenguinSprite {
    RightWalking,
    RightToFront,
    LeftWalking,
    FrontToLeft,
    LeftToFront,
    FrontToRight,
}

/// Each sprite strip holds this many frames; the frame counter stays below it.
pub const TOTAL_FRAMES: i32 = 40;

/// The walking penguin sprite is a 50-pixel square.
pub const WALKER_SPRITE: i64 = 5_000;

/// A penguin that paces along the bottom edge of the screen, turning around
/// at a randomized turn point. `counter` advances every tick and the phase is
/// chosen by comparing it against thresholds derived from `turn_point`;
/// `frame_counter` picks the sprite frame inside the current phase.
#[derive(Clone, Copy, Debug)]
pub struct BackAndForthAnimation {
    pub start_point: i64,
    pub screen_size: (u32, u32),
    pub current_pos_x: i64,
    pub current_pos_y: i64,
    pub frame_counter: i32,
    pub previous_start_point: i64,
    pub sprite_height: i64,
    pub sprite_width: i64,
    pub next_start_point: i64,
    pub animation_speed: i64,
    pub direction: BackAndForthAnimationState,
    pub counter: i32,
    pub turn_point: i32,
    pub should_go_left: bool,
}

/// The walk turns from left-facing to front-facing while the counter sits in
/// this window.
pub open spec fn to_front_from_left(c: int, tp: int) -> bool {
    2 * tp - 60 <= c <= 2 * tp - 36
}

pub open spec fn to_right_from_front(c: int, tp: int) -> bool {
    2 * tp - 36 < c <= 2 * tp - 12
}

pub open spec fn to_front_from_right(c: int, tp: int) -> bool {
    tp - 48 <= c < tp - 24
}

pub open spec fn to_left_from_front(c: int, tp: int) -> bool {
    tp - 24 <= c < tp
}

pub open spec fn in_left_phase(c: int, tp: int) -> bool {
    tp <= c < 2 * tp - 60
}

/// The cycle restarts when the penguin has finished turning back to the right
/// and none of the phase windows claims the counter first.
pub open spec fn reset_fires(s: BackAndForthAnimation) -> bool {
    let c = s.counter as int;
    let tp = s.turn_point as int;
    &&& !to_front_from_left(c, tp)
    &&& !to_right_from_front(c, tp)
    &&& !to_front_from_right(c, tp)
    &&& !to_left_from_front(c, tp)
    &&& !in_left_phase(c, tp)
    &&& s.direction == BackAndForthAnimationState::FrontToRight
    &&& c > 2 * tp - 12
}

/// The phase after one state update, when no reset fires: the first matching
/// counter window wins, and otherwise the phase is kept.
pub open spec fn step_direction(s: BackAndForthAnimation) -> BackAndForthAnimationState {
    let c = s.counter as int;
    let tp = s.turn_point as int;
    if to_front_from_left(c, tp) {
        BackAndForthAnimationState::LeftToFront
    } else if to_right_from_front(c, tp) {
        BackAndForthAnimationState::FrontToRight
    } else if to_front_from_right(c, tp) {
        BackAndForthAnimationState::RightToFront
    } else if to_left_from_front(c, tp) {
        BackAndForthAnimationState::FrontToLeft
    } else if in_left_phase(c, tp) {
        BackAndForthAnimationState::LeftAnimation
    } else {
        s.direction
    }
}

/// The randomized start point, in coordinate units: drawn from five pixels up
/// to three hundred pixels short of the turn point, or pinned at five pixels
/// when the turn point leaves that window empty.
pub open spec fn start_point_range(sp: int, tp: int) -> bool {
    &&& 5 * SCALE <= sp <= 100_000_000
    &&& tp > 305 ==> sp <= (tp - 301) * (SCALE as int)
    &&& tp <= 305 ==> sp == 5 * SCALE
}

impl BackAndForthAnimation {
    /// The counter window each phase may be observed in, between ticks.
    pub open spec fn counter_in_phase(self) -> bool {
        let c = self.counter as int;
        let tp = self.turn_point as int;
        match self.direction {
            BackAndForthAnimationState::RightAnimation => c <= tp - 48,
            BackAndForthAnimationState::RightToFront => tp - 48 <= c <= tp - 24,
            BackAndForthAnimationState::FrontToLeft => tp - 24 <= c <= tp,
            BackAndForthAnimationState::LeftAnimation => tp <= c <= 2 * tp - 59,
            BackAndForthAnimationState::LeftToFront => 2 * tp - 60 <= c <= 2 * tp - 35,
            BackAndForthAnimationState::FrontToRight => 2 * tp - 35 <= c <= 2 * tp - 11,
            BackAndForthAnimationState::FrontTalking => false,
        }
    }

    pub open spec fn wf(self) -> bool {
        &&& 351 <= self.screen_size.0 <= MAX_DIM
        &&& 1 <= self.screen_size.1 <= MAX_DIM
        &&& 300 <= self.turn_point <= self.screen_size.0 - 51
        &&& self.animation_speed == SCALE
        &&& self.sprite_height == WALKER_SPRITE
        &&& self.sprite_width == WALKER_SPRITE
        &&& coord_in_range(self.current_pos_x as int)
        &&& coord_in_range(self.current_pos_y as int)
        &&& 5 * SCALE <= self.start_point <= 100_000_000
        &&& 5 * SCALE <= self.previous_start_point <= 100_000_000
        &&& 5 * SCALE <= self.next_start_point <= 100_000_000
        &&& 0 <= self.frame_counter < TOTAL_FRAMES
        &&& 0 <= self.counter <= 2 * self.turn_point - 11
        &&& self.counter_in_phase()
    }

    /// What a walker fresh from `new` looks like.
    pub open spec fn fresh(self, screen_size: (u32, u32)) -> bool {
        &&& self.screen_size == screen_size
        &&& self.current_pos_x == 0
        &&& self.current_pos_y == (screen_size.1 - 50) * (SCALE as int)
        &&& self.frame_counter == 0
        &&& self.counter == 0
        &&& self.direction == BackAndForthAnimationState::RightAnimation
        &&& self.animation_speed == SCALE
        &&& self.sprite_height == WALKER_SPRITE
        &&& self.sprite_width == WALKER_SPRITE
        &&& 300 <= self.turn_point <= screen_size.0 - 51
        &&& start_point_range(self.start_point as int, self.turn_point as int)
        &&& self.previous_start_point == self.start_point
        &&& self.next_start_point == self.start_point
        &&& !self.should_go_left
    }

    /// One position step while walking right: when a leftward start point was
    /// drawn and thirty ticks have passed, the counter skips ahead to the
    /// right-to-front window; otherwise the penguin advances one speed unit.
    pub open spec fn right_position_step(s: Self) -> Self {
        if s.should_go_left && s.counter >= 30 {
            Self { counter: (s.turn_point - 48) as i32, should_go_left: false, ..s }
        } else {
            Self {
                current_pos_x: coord_clamped(s.current_pos_x + s.animation_speed) as i64,
                counter: (s.counter + 1) as i32,
                ..s
            }
        }
    }

    /// One position step while walking left: reaching the start point skips
    /// the counter ahead to the left-to-front window, and the penguin always
    /// retreats one speed unit.
    pub open spec fn left_position_step(s: Self) -> Self {
        let c1 = if s.current_pos_x <= s.start_point {
            2 * s.turn_point - 60
        } else {
            s.counter as int
        };
        Self {
            current_pos_x: coord_clamped(s.current_pos_x - s.animation_speed) as i64,
            counter: (c1 + 1) as i32,
            ..s
        }
    }

    /// One position step, by phase: turning phases drift at half speed, and
    /// the remaining phases only advance the counter.
    pub open spec fn position_step(s: Self) -> Self {
        match s.direction {
            BackAndForthAnimationState::RightAnimation => Self::right_position_step(s),
            BackAndForthAnimationState::LeftAnimation => Self::left_position_step(s),
            BackAndForthAnimationState::FrontToLeft => Self {
                current_pos_x: coord_clamped(s.current_pos_x - s.animation_speed / 2) as i64,
                counter: (s.counter + 1) as i32,
                ..s
            },
            BackAndForthAnimationState::FrontToRight => Self {
                current_pos_x: coord_clamped(s.current_pos_x + s.animation_speed / 2) as i64,
                counter: (s.counter + 1) as i32,
                ..s
            },
            _ => Self { counter: (s.counter + 1) as i32, ..s },
        }
    }

    /// The sprite frame shown for a phase: turning phases spread the frames
    /// over their 24-tick window (capped at the last frame), walking phases
    /// cycle through the strip.
    pub open spec fn frame_value(d: BackAndForthAnimationState, c: int, tp: int) -> int {
        match d {
            BackAndForthAnimationState::RightToFront => {
                let v = (c - (tp - 48)) * 40 / 24;
                if v > 39 { 39 } else { v }
            }
            BackAndForthAnimationState::FrontToLeft => {
                let v = (c - (tp - 24)) * 40 / 24;
                if v > 39 { 39 } else { v }
            }
            BackAndForthAnimationState::LeftToFront => {
                let v = (c - (2 * tp - 60)) * 40 / 24;
                if v > 39 { 39 } else { v }
            }
            BackAndForthAnimationState::FrontToRight => {
                let v = (c - (2 * tp - 36)) * 40 / 24;
                if v > 39 { 39 } else { v }
            }
            _ => c % 40,
        }
    }

    /// Where one tick takes the walker when no reset fires: the phase update,
    /// then the position step, then the frame pick.
    pub open spec fn tick_spec(self) -> Self {
        let s1 = Self { direction: step_direction(self), ..self };
        let s2 = Self::position_step(s1);
        Self {
            frame_counter: Self::frame_value(s2.direction, s2.counter as int, s2.turn_point as int) as i32,
            ..s2
        }
    }

    /// What the state update alone leaves behind when the reset fires: the
    /// counters return to zero, the walk faces right again, the start point
    /// rotates to a fresh draw, and a fresh turn point is drawn.
    pub open spec fn reset_state_rel(pre: Self, post: Self) -> bool {
        &&& post.counter == 0
        &&& post.frame_counter == 0
        &&& post.direction == BackAndForthAnimationState::RightAnimation
        &&& post.previous_start_point == pre.start_point
        &&& post.start_point == post.next_start_point
        &&& start_point_range(post.next_start_point as int, pre.turn_point as int)
        &&& 300 <= post.turn_point <= pre.screen_size.0 - 51
        &&& post.should_go_left == (post.previous_start_point > post.next_start_point)
        &&& post.current_pos_x == pre.current_pos_x
        &&& post.current_pos_y == pre.current_pos_y
        &&& post.screen_size == pre.screen_size
        &&& post.sprite_height == pre.sprite_height
        &&& post.sprite_width == pre.sprite_width
        &&& post.animation_speed == pre.animation_speed
    }

    /// Where one tick takes the walker when the reset fires: the reset, then
    /// one rightward step from the fresh state.
    pub open spec fn reset_tick_rel(pre: Self, post: Self) -> bool {
        &&& post.counter == 1
        &&& post.frame_counter == 1
        &&& post.direction == BackAndForthAnimationState::RightAnimation
        &&& post.previous_start_point == pre.start_point
        &&& post.start_point == post.next_start_point
        &&& start_point_range(post.next_start_point as int, pre.turn_point as int)
        &&& 300 <= post.turn_point <= pre.screen_size.0 - 51
        &&& post.should_go_left == (post.previous_start_point > post.next_start_point)
        &&& post.current_pos_x == coord_clamped(pre.current_pos_x + pre.animation_speed)
        &&& post.current_pos_y == pre.current_pos_y
        &&& post.screen_size == pre.screen_size
        &&& post.sprite_height == pre.sprite_height
        &&& post.sprite_width == pre.sprite_width
        &&& post.animation_speed == pre.animation_speed
    }

    /// Everything one tick guarantees, reset or not.
    pub open spec fn tick_rel(pre: Self, post: Self) -> bool {
        &&& post.wf()
        &&& !reset_fires(pre) ==> post == pre.tick_spec()
        &&& reset_fires(pre) ==> Self::reset_tick_rel(pre, post)
    }

    pub fn new(screen_size: (u32, u32)) -> (r: Self)
        requires
            351 <= screen_size.0 <= MAX_DIM,
            1 <= screen_size.1 <= MAX_DIM,
        ensures
            r.wf(),
            r.fresh(screen_size),
    {
        let bottom: i64 = (screen_size.1 as i64 - 50) * SCALE;
        let turn_point: i32 = randomize_turn_point(screen_size.0);
        let start_point: i64 = randomize_start_point(turn_point);

        BackAndForthAnimation {
            start_point,
            current_pos_y: bottom,
            sprite_height: WALKER_SPRITE,
            sprite_width: WALKER_SPRITE,
            frame_counter: 0,
            screen_size,
            previous_start_point: start_point,
            next_start_point: start_point,
            animation_speed: SCALE,
            should_go_left: false,
            direction: BackAndForthAnimationState::RightAnimation,
            counter: 0,
            turn_point,
            current_pos_x: 0,
        }
    }

    /// One 16 ms tick: the phase update (which may reset the cycle), the
    /// position step, and the frame pick.
    pub fn update(&mut self, message: BackAndForthAnimationMessage)
        requires
            old(self).wf(),
        ensures
            final(self).wf(),
            Self::tick_rel(*old(self), *final(self)),
    {
        match message {
            BackAndForthAnimationMessage::Tick => {
                self.update_animation_state();
                self.update_position();
                self.update_frame_counter();
            }
        }
    }

    fn update_animation_state(&mut self)
        requires
            old(self).wf(),
        ensures
            !reset_fires(*old(self)) ==> *final(self) == (Self {
                direction: step_direction(*old(self)),
                ..*old(self)
            }),
            reset_fires(*old(self)) ==> Self::reset_state_rel(*old(self), *final(self)),
    {
        if self.is_transitioning_to_front_from_left() {
            self.direction = BackAndForthAnimationState::LeftToFront;
        } else if self.is_transitioning_to_right_from_front() {
            self.direction = BackAndForthAnimationState::FrontToRight;
        } else if self.is_transitioning_to_front_from_right() {
            self.direction = BackAndForthAnimationState::RightToFront;
        } else if self.is_transitioning_to_left_from_front() {
            self.direction = BackAndForthAnimationState::FrontToLeft;
        } else if self.is_in_left_animation_phase() {
            self.direction = BackAndForthAnimationState::LeftAnimation;
        } else if self.should_reset_animation() {
            self.reset_animation();
        }
    }

    fn is_transitioning_to_front_from_left(&self) -> (r: bool)
        requires
            300 <= self.turn_point <= MAX_DIM,
        ensures
            r == to_front_from_left(self.counter as int, self.turn_point as int),
    {
        self.counter >= (2 * self.turn_point - 60) && self.counter <= (2 * self.turn_point - 36)
    }

    fn is_transitioning_to_right_from_front(&self) -> (r: bool)
        requires
            300 <= self.turn_point <= MAX_DIM,
        ensures
            r == to_right_from_front(self.counter as int, self.turn_point as int),
    {
        self.counter > (2 * self.turn_point - 36) && self.counter <= (2 * self.turn_point - 12)
    }

    fn is_transitioning_to_front_from_right(&self) -> (r: bool)
        requires
            300 <= self.turn_point <= MAX_DIM,
        ensures
            r == to_front_from_right(self.counter as int, self.turn_point as int),
    {
        self.counter >= self.turn_point - 48 && self.counter < self.turn_point - 24
    }

    fn is_transitioning_to_left_from_front(&self) -> (r: bool)
        requires
            300 <= self.turn_point <= MAX_DIM,
        ensures
            r == to_left_from_front(self.counter as int, self.turn_point as int),
    {
        self.counter >= self.turn_point - 24 && self.counter < self.turn_point
    }

    fn is_in_left_animation_phase(&self) -> (r: bool)
        requires
            300 <= self.turn_point <= MAX_DIM,
        ensures
            r == in_left_phase(self.counter as int, self.turn_point as int),
    {
        self.counter >= self.turn_point && self.counter < (2 * self.turn_point - 60)
    }

    fn should_reset_animation(&self) -> (r: bool)
        requires
            300 <= self.turn_point <= MAX_DIM,
        ensures
            r == (self.direction == BackAndForthAnimationState::FrontToRight
                && self.counter > 2 * self.turn_point - 12),
    {
        self.direction == BackAndForthAnimationState::FrontToRight
            && self.counter > (2 * self.turn_point - 12)
    }

    fn reset_animation(&mut self)
        requires
            351 <= old(self).screen_size.0 <= MAX_DIM,
            300 <= old(self).turn_point <= MAX_DIM,
        ensures
            Self::reset_state_rel(*old(self), *final(self)),
    {
        self.counter = 0;
        self.previous_start_point = self.start_point;
        self.next_start_point = randomize_start_point(self.turn_point);
        self.start_point = self.next_start_point;
        self.turn_point = randomize_turn_point(self.screen_size.0);
        self.direction = BackAndForthAnimationState::RightAnimation;
        self.should_go_left = self.previous_start_point > self.next_start_point;
        self.frame_counter = 0;
    }

    fn update_position(&mut self)
        requires
            300 <= old(self).turn_point <= MAX_DIM,
            0 <= old(self).counter <= 2_000_000,
            old(self).animation_speed == SCALE,
            coord_in_range(old(self).current_pos_x as int),
        ensures
            *final(self) == Self::position_step(*old(self)),
    {
        match self.direction {
            BackAndForthAnimationState::RightAnimation => self.update_right_animation_position(),
            BackAndForthAnimationState::LeftAnimation => self.update_left_animation_position(),
            BackAndForthAnimationState::FrontToLeft => {
                self.current_pos_x = coord_add(self.current_pos_x, -(self.animation_speed / 2));
                self.counter = self.counter + 1;
            }
            BackAndForthAnimationState::FrontToRight => {
                self.current_pos_x = coord_add(self.current_pos_x, self.animation_speed / 2);
                self.counter = self.counter + 1;
            }
            _ => {
                self.counter = self.counter + 1;
            }
        }
    }

    fn update_right_animation_position(&mut self)
        requires
            old(self).direction == BackAndForthAnimationState::RightAnimation,
            300 <= old(self).turn_point <= MAX_DIM,
            0 <= old(self).counter <= 2_000_000,
            old(self).animation_speed == SCALE,
            coord_in_range(old(self).current_pos_x as int),
        ensures
            *final(self) == Self::right_position_step(*old(self)),
    {
        if self.should_go_left && self.counter >= 30 {
            self.counter = self.turn_point - 48;
            self.should_go_left = false;
        } else {
            self.current_pos_x = coord_add(self.current_pos_x, self.animation_speed);
            self.counter = self.counter + 1;
        }
    }

    fn update_left_animation_position(&mut self)
        requires
            old(self).direction == BackAndForthAnimationState::LeftAnimation,
            300 <= old(self).turn_point <= MAX_DIM,
            0 <= old(self).counter <= 2_000_000,
            old(self).animation_speed == SCALE,
            coord_in_range(old(self).current_pos_x as int),
        ensures
            *final(self) == Self::left_position_step(*old(self)),
    {
        if self.current_pos_x <= self.start_point {
            self.counter = 2 * self.turn_point - 60;
        }
        self.current_pos_x = coord_add(self.current_pos_x, -self.animation_speed);
        self.counter = self.counter + 1;
    }

    fn update_frame_counter(&mut self)
        requires
            300 <= old(self).turn_point <= MAX_DIM,
            0 <= old(self).counter <= 2_000_001,
            match old(self).direction {
                BackAndForthAnimationState::RightToFront =>
                    old(self).counter >= old(self).turn_point - 48,
                BackAndForthAnimationState::FrontToLeft =>
                    old(self).counter >= old(self).turn_point - 24,
                BackAndForthAnimationState::LeftToFront =>
                    old(self).counter >= 2 * old(self).turn_point - 60,
                BackAndForthAnimationState::FrontToRight =>
                    old(self).counter >= 2 * old(self).turn_point - 36,
                _ => true,
            },
        ensures
            *final(self) == (Self {
                frame_counter: Self::frame_value(
                    old(self).direction,
                    old(self).counter as int,
                    old(self).turn_point as int,
                ) as i32,
                ..*old(self)
            }),
    {
        let total_frames: i32 = TOTAL_FRAMES;

        self.frame_counter = match self.direction {
            BackAndForthAnimationState::RightToFront => {
                let fc: i32 = ((self.counter - (self.turn_point - 48)) * total_frames) / 24;
                if fc > 39 { 39 } else { fc }
            }
            BackAndForthAnimationState::FrontToLeft => {
                let fc: i32 = ((self.counter - (self.turn_point - 24)) * total_frames) / 24;
                if fc > 39 { 39 } else { fc }
            }
            BackAndForthAnimationState::LeftToFront => {
                let fc: i32 = ((self.counter - (2 * self.turn_point - 60)) * total_frames) / 24;
                if fc > 39 { 39 } else { fc }
            }
            BackAndForthAnimationState::FrontToRight => {
                let fc: i32 = ((self.counter - (2 * self.turn_point - 36)) * total_frames) / 24;
                if fc > 39 { 39 } else { fc }
            }
            _ => self.counter % total_frames,
        };
    }

    /// Which sprite strip the current phase draws from.
    pub open spec fn sprite_for(d: BackAndForthAnimationState) -> PenguinSprite {
        match d {
            BackAndForthAnimationState::LeftAnimation => PenguinSprite::LeftWalking,
            BackAndForthAnimationState::RightToFront => PenguinSprite::RightToFront,
            BackAndForthAnimationState::FrontToLeft => PenguinSprite::FrontToLeft,
            BackAndForthAnimationState::LeftToFront => PenguinSprite::LeftToFront,
            BackAndForthAnimationState::FrontToRight => PenguinSprite::FrontToRight,
            _ => PenguinSprite::RightWalking,
        }
    }

    /// The sprite strip and frame index to draw this tick.
    pub fn current_sprite_frame(&self) -> (r: (PenguinSprite, usize))
        requires
            0 <= self.frame_counter < TOTAL_FRAMES,
        ensures
            r.0 == Self::sprite_for(self.direction),
            r.1 == self.frame_counter as int,
            r.1 < TOTAL_FRAMES as int,
    {
        let frame: usize = self.frame_counter as usize;
        let sprite: PenguinSprite = match self.direction {
            BackAndForthAnimationState::LeftAnimation => PenguinSprite::LeftWalking,
            BackAndForthAnimationState::RightToFront => PenguinSprite::RightToFront,
            BackAndForthAnimationState::FrontToLeft => PenguinSprite::FrontToLeft,
            BackAndForthAnimationState::LeftToFront => PenguinSprite::LeftToFront,
            BackAndForthAnimationState::FrontToRight => PenguinSprite::FrontToRight,
            _ => PenguinSprite::RightWalking,
        };
        (sprite, frame)
    }
}

/// Law: within the rightward walking phase, the position advances
/// monotonically — a tick that keeps the penguin walking right (no counter
/// skip, no phase change) moves it exactly one speed unit to the right.
/// A walk this far right never reaches the coordinate clamp: the tick is a
/// deterministic step, since a reset can only fire out of the final turn.
pub proof fn lemma_right_phase_moves_right(s: BackAndForthAnimation)
    requires
        s.wf(),
        s.direction == BackAndForthAnimationState::RightAnimation,
        step_direction(s) == BackAndForthAnimationState::RightAnimation,
        !(s.should_go_left && s.counter >= 30),
        s.current_pos_x + SCALE <= COORD_LIMIT,
    ensures
        !reset_fires(s),
        s.tick_spec().current_pos_x == s.current_pos_x + SCALE,
        s.tick_spec().current_pos_x > s.current_pos_x,
{
}

/// Law: within the leftward walking phase, the position retreats
/// monotonically — a tick that keeps the penguin walking left moves it
/// exactly one speed unit to the left.
pub proof fn lemma_left_phase_moves_left(s: BackAndForthAnimation)
    requires
        s.wf(),
        s.direction == BackAndForthAnimationState::LeftAnimation,
        step_direction(s) == BackAndForthAnimationState::LeftAnimation,
        s.current_pos_x - SCALE >= -COORD_LIMIT,
    ensures
        !reset_fires(s),
        s.tick_spec().current_pos_x == s.current_pos_x - SCALE,
        s.tick_spec().current_pos_x < s.current_pos_x,
{
}

/// Law: between ticks the frame counter always stays inside the sprite strip,
/// whichever phase the walk is in.
pub proof fn lemma_frame_counter_in_strip(pre: BackAndForthAnimation, post: BackAndForthAnimation)
    requires
        BackAndForthAnimation::tick_rel(pre, post),
    ensures
        0 <= post.frame_counter < TOTAL_FRAMES,
{
}

/// A randomized turn point: somewhere between column 300 and fifty pixels
/// short of the right screen edge.
fn randomize_turn_point(screen_size_x: u32) -> (r: i32)
    requires
        351 <= screen_size_x <= MAX_DIM,
    ensures
        300 <= r <= screen_size_x - 51,
{
    let hi: i64 = screen_size_x as i64 - 50;
    let v: i64 = random_in_range(300, hi);
    v as i32
}

/// A randomized start point, in coordinate units. When the turn point sits
/// close enough to the left edge that the usual window (five pixels up to
/// three hundred short of the turn point) is empty, the start point is pinned
/// at five pixels instead of drawing from an empty range.
fn randomize_start_point(turn_point: i32) -> (r: i64)
    requires
        300 <= turn_point <= MAX_DIM,
    ensures
        start_point_range(r as int, turn_point as int),
{
    if turn_point > 305 {
        let px: i64 = random_in_range(5, turn_point as i64 - 300);
        px * SCALE
    } else {
        5 * SCALE
    }
}

} // verus!

