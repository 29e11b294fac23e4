use vstd::prelude::*;

verus! {

use crate::rng::random_in_range;
use crate::units::{COORD_LIMIT, MAX_DIM, SCALE, coord_add, coord_clamped, coord_in_range};

/// Which balloon bitmap a placement instruction refers to.
#[derive(Clone, Copy, Debug, PartialEq, Eq, Structural)]
pub enum BalloonAnimationState {
    BallonWithPenguin,
    BalloonWithoutPenguin,
    BalloonWithHyprlandLogo,
}

#[derive(Clone, Copy, Debug, PartialEq, Eq, Structural)]
pub enum BalloonAnimationMessage {
    Tick,
}

/// How far one descending step moves the balloon, in coordinate units
/// (half a pixel per tick).
pub const DESCENT_SPEED: i64 = 50;

/// How far one rising step moves the balloon after it has landed
/// (seven tenths of a pixel per tick).
pub const RISE_SPEED: i64 = 70;

/// The balloon sprite is a 180-pixel square.
pub const BALLOON_SPRITE: i64 = 18_000;

/// The sideways drift fed to one tick is a cosine of amplitude eight tenths of
/// a pixel, so its magnitude never passes `DRIFT_BOUND` coordinate units.
pub const DRIFT_BOUND: i64 = 80;

/// The hover offset fed to one tick is a sine of amplitude five pixels.
pub const HOVER_BOUND: i64 = 500;

/// A balloon that descends from the top of the screen, lands, drops its
/// penguin, and floats back up and away.
#[derive(Clone, Copy, Debug)]
pub struct BalloonAnimation {
    pub current_pos_x: i64,
    pub current_pos_y: i64,
    pub sprite_height: i64,
    pub sprite_width: i64,
    pub descent_speed: i64,
    pub with_penguin: bool,
    pub landing_y: i64,
    pub landed: bool,
    pub hover_offset: i64,
}

impl BalloonAnimation {
    pub open spec fn wf(self) -> bool {
        &&& coord_in_range(self.current_pos_x as int)
        &&& coord_in_range(self.current_pos_y as int)
        &&& self.sprite_height == BALLOON_SPRITE
        &&& self.sprite_width == BALLOON_SPRITE
        &&& self.descent_speed == DESCENT_SPEED
        &&& -(20_000 as int) <= self.landing_y <= 100_000_000
        &&& -(HOVER_BOUND as int) <= self.hover_offset <= HOVER_BOUND as int
    }

    /// What a balloon fresh from `new` looks like: everything but the
    /// starting column is fixed, and the column lies between the margins.
    pub open spec fn fresh(self, screen_size: (u32, u32)) -> bool {
        &&& 31_500 <= self.current_pos_x < screen_size.0 * (SCALE as int) - 31_500
        &&& self.current_pos_y == 10 * SCALE
        &&& self.sprite_height == BALLOON_SPRITE
        &&& self.sprite_width == BALLOON_SPRITE
        &&& self.descent_speed == DESCENT_SPEED
        &&& self.with_penguin
        &&& self.landing_y == (screen_size.1 - 200) * (SCALE as int)
        &&& !self.landed
        &&& self.hover_offset == 0
    }

    /// The screen must leave room between the side margins (1.75 sprite
    /// widths each) for the starting column to be drawn.
    pub fn new(screen_size: (u32, u32)) -> (r: Self)
        requires
            631 <= screen_size.0 <= MAX_DIM,
            1 <= screen_size.1 <= MAX_DIM,
        ensures
            r.wf(),
            r.fresh(screen_size),
    {
        let left_margin: i64 = 31_500;
        let right_margin: i64 = screen_size.0 as i64 * SCALE - 31_500;
        let random_x: i64 = random_in_range(left_margin, right_margin);
        let landing_y: i64 = (screen_size.1 as i64 - 200) * SCALE;
        BalloonAnimation {
            current_pos_x: random_x,
            current_pos_y: 10 * SCALE,
            sprite_height: BALLOON_SPRITE,
            sprite_width: BALLOON_SPRITE,
            descent_speed: DESCENT_SPEED,
            with_penguin: true,
            landing_y,
            landed: false,
            hover_offset: 0,
        }
    }

    /// Where one tick takes a balloon, given the sideways drift and the hover
    /// offset that the host computed for this tick. Before landing the balloon
    /// sinks by `DESCENT_SPEED` and lands when it reaches `landing_y`; after
    /// landing it rises by `RISE_SPEED` until one sprite height above the top
    /// edge.
    pub open spec fn tick_spec(self, drift: int, hover: int) -> Self {
        if !self.landed {
            let y1 = coord_clamped(self.current_pos_y + self.descent_speed);
            let x1 = coord_clamped(self.current_pos_x + drift);
            if y1 >= self.landing_y {
                BalloonAnimation {
                    current_pos_x: x1 as i64,
                    current_pos_y: self.landing_y,
                    with_penguin: false,
                    landed: true,
                    hover_offset: hover as i64,
                    ..self
                }
            } else {
                BalloonAnimation {
                    current_pos_x: x1 as i64,
                    current_pos_y: y1 as i64,
                    hover_offset: hover as i64,
                    ..self
                }
            }
        } else {
            let y1 = coord_clamped(self.current_pos_y - RISE_SPEED);
            let x1 = coord_clamped(self.current_pos_x + drift);
            let y2 = if y1 <= -(BALLOON_SPRITE as int) {
                -(BALLOON_SPRITE as int)
            } else {
                y1
            };
            BalloonAnimation {
                current_pos_x: x1 as i64,
                current_pos_y: y2 as i64,
                hover_offset: hover as i64,
                ..self
            }
        }
    }

    /// One 16 ms tick. `drift` and `hover` are the sinusoidal offsets for this
    /// tick, which the host derives from the current position; the update is
    /// exact in them.
    pub fn update(&mut self, message: BalloonAnimationMessage, drift: i64, hover: i64)
        requires
            old(self).wf(),
            -DRIFT_BOUND <= drift <= DRIFT_BOUND,
            -HOVER_BOUND <= hover <= HOVER_BOUND,
        ensures
            final(self).wf(),
            *final(self) == old(self).tick_spec(drift as int, hover as int),
    {
        match message {
            BalloonAnimationMessage::Tick => {
                if !self.landed {
                    self.hover_offset = hover;
                    self.current_pos_y = coord_add(self.current_pos_y, self.descent_speed);
                    self.current_pos_x = coord_add(self.current_pos_x, drift);
                    if self.current_pos_y >= self.landing_y {
                        self.current_pos_y = self.landing_y;
                        self.landed = true;
                        self.with_penguin = false;
                    }
                } else {
                    self.landed = true;
                    self.hover_offset = hover;
                    self.current_pos_y = coord_add(self.current_pos_y, -RISE_SPEED);
                    self.current_pos_x = coord_add(self.current_pos_x, drift);
                    if self.current_pos_y <= -self.sprite_height {
                        self.current_pos_y = -self.sprite_height;
                    }
                }
            }
        }
    }
}

/// Law: before landing, the balloon descends monotonically — every tick from
/// strictly above its landing row moves it strictly downward, and never past
/// that row.
pub proof fn lemma_balloon_descends(s: BalloonAnimation, drift: int, hover: int)
    requires
        s.wf(),
        !s.landed,
        s.current_pos_y < s.landing_y,
    ensures
        s.tick_spec(drift, hover).current_pos_y > s.current_pos_y,
        s.tick_spec(drift, hover).current_pos_y <= s.landing_y,
{
}

} // verus!
