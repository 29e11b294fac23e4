use vstd::prelude::*;

verus! {

use crate::rng::random_in_range;
use crate::units::{MAX_DIM, SCALE, coord_add, coord_clamped, coord_in_range};

#[derive(Clone, Copy, Debug, PartialEq, Eq, Structural)]
pub enum CopterAnimationMessage {
    Tick,
}

/// The helicopter sprite is a 60-pixel square.
pub const COPTER_SPRITE: i64 = 6_000;

/// Gravity: the falling speed grows by eight hundredths of a pixel per tick.
pub const GRAVITY: i64 = 8;

/// Terminal falling speed: three pixels per tick.
pub const MAX_FALL_SPEED: i64 = 300;

/// Climbing acceleration after the hover phase, per tick.
pub const CLIMB_STEP: i64 = 15;

/// Fastest climbing speed: six pixels per tick.
pub const MAX_CLIMB_SPEED: i64 = 600;

/// Within this distance above the ground (30 pixels) the descent is damped.
pub const BRAKING_DISTANCE: i64 = 3_000;

/// The clock advances a tenth of a time unit per tick; after `HOVER_TIME`
/// tenths the landed helicopter stops hovering and climbs away.
pub const HOVER_TIME: i64 = 100;

/// The bob offset fed to one descending tick is a sine of amplitude two
/// pixels.
pub const BOB_BOUND: i64 = 200;

/// The hover offset fed to one landed tick is a sine of amplitude three
/// pixels.
pub const COPTER_HOVER_BOUND: i64 = 300;

/// A helicopter penguin that falls in, brakes near the ground, hovers for a
/// while, and climbs away.
#[derive(Clone, Copy, Debug)]
pub struct CopterAnimation {
    pub current_pos_x: i64,
    pub current_pos_y: i64,
    pub sprite_height: i64,
    pub sprite_width: i64,
    pub landed: bool,
    pub landing_y: i64,
    pub velocity_y: i64,
    pub base_x: i64,
    /// Tenths of a time unit since the animation began.
    pub time: i64,
    pub hover_offset_y: i64,
}

impl CopterAnimation {
    pub open spec fn wf(self) -> bool {
        &&& coord_in_range(self.current_pos_x as int)
        &&& coord_in_range(self.current_pos_y as int)
        &&& coord_in_range(self.base_x as int)
        &&& coord_in_range(self.time as int)
        &&& 0 <= self.time
        &&& self.sprite_height == COPTER_SPRITE
        &&& self.sprite_width == COPTER_SPRITE
        &&& -(20_000 as int) <= self.landing_y <= 100_000_000
        &&& -MAX_CLIMB_SPEED <= self.velocity_y <= MAX_FALL_SPEED
        &&& !self.landed ==> self.velocity_y >= 0
        &&& -(COPTER_HOVER_BOUND as int) <= self.hover_offset_y <= COPTER_HOVER_BOUND as int
    }

    /// What a helicopter fresh from `new` looks like: everything but the
    /// starting column is fixed, and the column lies between the margins.
    pub open spec fn fresh(self, screen_size: (u32, u32)) -> bool {
        &&& 10_500 <= self.current_pos_x < screen_size.0 * (SCALE as int) - 10_500
        &&& self.base_x == self.current_pos_x
        &&& self.current_pos_y == 10 * SCALE
        &&& self.sprite_height == COPTER_SPRITE
        &&& self.sprite_width == COPTER_SPRITE
        &&& !self.landed
        &&& self.landing_y == (screen_size.1 - 70) * (SCALE as int)
        &&& self.velocity_y == 0
        &&& self.time == 0
        &&& self.hover_offset_y == 0
    }

    /// The screen must leave room between the side margins (1.75 sprite
    /// widths each) for the starting column to be drawn.
    pub fn new(screen_size: (u32, u32)) -> (r: Self)
        requires
            211 <= screen_size.0 <= MAX_DIM,
            1 <= screen_size.1 <= MAX_DIM,
        ensures
            r.wf(),
            r.fresh(screen_size),
    {
        let left_margin: i64 = 10_500;
        let right_margin: i64 = screen_size.0 as i64 * SCALE - 10_500;
        let random_x: i64 = random_in_range(left_margin, right_margin);
        let landing_y: i64 = (screen_size.1 as i64 - 70) * SCALE;
        CopterAnimation {
            current_pos_x: random_x,
            current_pos_y: 10 * SCALE,
            sprite_height: COPTER_SPRITE,
            sprite_width: COPTER_SPRITE,
            landed: false,
            landing_y,
            velocity_y: 0,
            base_x: random_x,
            time: 0,
            hover_offset_y: 0,
        }
    }

    /// Where one tick takes the helicopter, given this tick's bob and hover
    /// offsets. While falling, gravity accelerates it up to the terminal
    /// speed, the descent is damped to 92 percent inside the braking
    /// distance, and reaching `landing_y` lands it. Once landed it hovers at
    /// `landing_y` plus the offset until the clock passes `HOVER_TIME`, then
    /// climbs away, stopping two sprite heights above the top edge.
    pub open spec fn tick_spec(self, bob: int, hover: int) -> Self {
        let t1 = coord_clamped(self.time + 1);
        if !self.landed {
            let v1 = if self.velocity_y + GRAVITY < MAX_FALL_SPEED {
                self.velocity_y + GRAVITY
            } else {
                MAX_FALL_SPEED as int
            };
            let y1 = coord_clamped(self.current_pos_y + v1);
            let y2 = coord_clamped(y1 + bob);
            let v2 = if self.landing_y - y2 < BRAKING_DISTANCE {
                v1 * 92 / 100
            } else {
                v1
            };
            if y2 >= self.landing_y {
                CopterAnimation {
                    time: t1 as i64,
                    velocity_y: 0,
                    current_pos_y: self.landing_y,
                    current_pos_x: self.base_x,
                    landed: true,
                    ..self
                }
            } else {
                CopterAnimation {
                    time: t1 as i64,
                    velocity_y: v2 as i64,
                    current_pos_y: y2 as i64,
                    current_pos_x: self.base_x,
                    ..self
                }
            }
        } else {
            if t1 > HOVER_TIME as int {
                let v1 = if self.velocity_y - CLIMB_STEP > -(MAX_CLIMB_SPEED as int) {
                    self.velocity_y - CLIMB_STEP
                } else {
                    -(MAX_CLIMB_SPEED as int)
                };
                let y1 = coord_clamped(self.current_pos_y + v1);
                let y2 = if y1 <= -2 * COPTER_SPRITE {
                    -2 * (COPTER_SPRITE as int)
                } else {
                    y1
                };
                CopterAnimation {
                    time: t1 as i64,
                    velocity_y: v1 as i64,
                    current_pos_y: y2 as i64,
                    current_pos_x: self.base_x,
                    hover_offset_y: hover as i64,
                    ..self
                }
            } else {
                CopterAnimation {
                    time: t1 as i64,
                    current_pos_y: (self.landing_y + hover) as i64,
                    current_pos_x: self.base_x,
                    hover_offset_y: hover as i64,
                    ..self
                }
            }
        }
    }

    /// One 16 ms tick. `bob` and `hover` are the sinusoidal offsets for this
    /// tick, which the host derives from the clock; the update is exact in
    /// them.
    pub fn update(&mut self, message: CopterAnimationMessage, bob: i64, hover: i64)
        requires
            old(self).wf(),
            -BOB_BOUND <= bob <= BOB_BOUND,
            -COPTER_HOVER_BOUND <= hover <= COPTER_HOVER_BOUND,
        ensures
            final(self).wf(),
            *final(self) == old(self).tick_spec(bob as int, hover as int),
    {
        match message {
            CopterAnimationMessage::Tick => {
                self.time = coord_add(self.time, 1);
                if !self.landed {
                    self.velocity_y = self.velocity_y + GRAVITY;
                    if self.velocity_y > MAX_FALL_SPEED {
                        self.velocity_y = MAX_FALL_SPEED;
                    }
                    self.current_pos_y = coord_add(self.current_pos_y, self.velocity_y);
                    self.current_pos_x = self.base_x;
                    self.current_pos_y = coord_add(self.current_pos_y, bob);
                    if self.landing_y - self.current_pos_y < BRAKING_DISTANCE {
                        self.velocity_y = self.velocity_y * 92 / 100;
                    }
                    if self.current_pos_y >= self.landing_y {
                        self.landed = true;
                        self.current_pos_y = self.landing_y;
                        self.velocity_y = 0;
                    }
                } else {
                    self.current_pos_x = self.base_x;
                    if self.time > HOVER_TIME {
                        self.velocity_y = self.velocity_y - CLIMB_STEP;
                        if self.velocity_y < -MAX_CLIMB_SPEED {
                            self.velocity_y = -MAX_CLIMB_SPEED;
                        }
                        self.current_pos_y = coord_add(self.current_pos_y, self.velocity_y);
                        if self.current_pos_y <= -2 * self.sprite_height {
                            self.current_pos_y = -2 * self.sprite_height;
                        }
                        self.hover_offset_y = hover;
                    } else {
                        self.hover_offset_y = hover;
                        self.current_pos_y = self.landing_y + hover;
                    }
                }
            }
        }
    }
}

} // verus!
