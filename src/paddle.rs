//! A paddle: a box that moves only vertically and always stays on the screen.
use crate::geometry::{abs, displace, displacement, Vec2, MAX_COORD, MAX_SPEED, SCREEN_HEIGHT};
use vstd::prelude::*;

verus! {

pub struct Paddle {
    /// Top-left corner.
    pub xy: Vec2,
    /// Width and height.
    pub size: Vec2,
    /// Vertical speed, in units per second.
    pub dy: i64,
}

/// `v` limited to `lo..=hi`.
pub open spec fn clamp(v: int, lo: int, hi: int) -> int {
    if v < lo {
        lo
    } else if v > hi {
        hi
    } else {
        v
    }
}

impl Paddle {
    /// Values a paddle can hold: sizes that fit the screen, coordinates and speed within range.
    pub open spec fn wf(&self) -> bool {
        &&& 0 <= self.size.x <= MAX_COORD
        &&& 0 <= self.size.y <= SCREEN_HEIGHT
        &&& abs(self.xy.x as int) <= MAX_COORD
        &&& abs(self.xy.y as int) <= MAX_COORD
        &&& abs(self.dy as int) <= MAX_SPEED
    }

    /// Lowest top coordinate that keeps the whole paddle on the screen.
    pub open spec fn max_y(&self) -> int {
        SCREEN_HEIGHT - self.size.y
    }

    /// The paddle after `dt` microseconds of motion, clamped to the screen.
    pub open spec fn moved(self, dt: int) -> Paddle {
        Paddle {
            xy: Vec2 {
                x: self.xy.x,
                y: clamp(self.xy.y + displacement(self.dy as int, dt), 0, self.max_y()) as i64,
            },
            ..self
        }
    }

    pub fn new(x: i64, y: i64, width: i64, height: i64) -> (r: Paddle)
        requires
            0 <= width <= MAX_COORD,
            0 <= height <= SCREEN_HEIGHT,
            abs(x as int) <= MAX_COORD,
            abs(y as int) <= MAX_COORD,
        ensures
            r.xy == (Vec2 { x, y }),
            r.size == (Vec2 { x: width, y: height }),
            r.dy == 0,
            r.wf(),
    {
        Paddle { xy: Vec2 { x, y }, size: Vec2 { x: width, y: height }, dy: 0 }
    }

    /// Sets the vertical speed that the next updates move by.
    pub fn set_velocity_y(&mut self, v: i64)
        requires
            old(self).wf(),
            abs(v as int) <= MAX_SPEED,
        ensures
            *final(self) == (Paddle { dy: v, ..*old(self) }),
            final(self).wf(),
    {
        self.dy = v;
    }

    /// Moves the paddle by its speed for `dt` microseconds, then clamps it to the screen.
    pub fn update(&mut self, dt: u32)
        requires
            old(self).wf(),
        ensures
            *final(self) == old(self).moved(dt as int),
            final(self).wf(),
            0 <= final(self).xy.y <= SCREEN_HEIGHT - final(self).size.y,
    {
        let step = displace(self.dy, dt);
        let limit = SCREEN_HEIGHT - self.size.y;
        let y = self.xy.y + step;
        self.xy.y = if y < 0 {
            0
        } else if y > limit {
            limit
        } else {
            y
        };
    }
}

} // verus!
