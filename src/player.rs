//! The player: position in the world and vertical velocity.
use vstd::prelude::*;

use crate::config::{FLAP_VELOCITY, GRAVITY, TERMINAL_VELOCITY, VELOCITY_SCALE};
use crate::draw::{Color, DrawCommand};

verus! {

/// Velocity after gravity has acted for one tick: it grows by `GRAVITY`,
/// but never beyond `TERMINAL_VELOCITY`.
pub open spec fn next_velocity(v: int) -> int {
    if v < TERMINAL_VELOCITY {
        if v + GRAVITY < TERMINAL_VELOCITY {
            v + GRAVITY
        } else {
            TERMINAL_VELOCITY as int
        }
    } else {
        v
    }
}

/// Whole cells travelled in one tick at velocity `v`: the velocity in cells,
/// rounded down.
pub open spec fn cells_moved(v: int) -> int {
    v / VELOCITY_SCALE as int
}

/// The controlled entity. `x` is its world position, which grows by one on
/// each physics tick; `y` is its row, with row 0 at the top; `velocity` is in
/// tenths of a cell per tick, positive downwards.
#[derive(Clone, Copy, Debug, PartialEq, Eq)]
pub struct Player {
    pub x: i32,
    pub y: i32,
    pub velocity: i32,
}

impl Player {
    /// A player that the simulation can move: on or below the top row, with
    /// a velocity between a flap's and the terminal one.
    pub open spec fn inv(&self) -> bool {
        &&& self.y >= 0
        &&& FLAP_VELOCITY <= self.velocity <= TERMINAL_VELOCITY
    }

    /// The player after one physics tick: gravity, then a move by the new
    /// velocity and one step forward, then the row clamped at the top.
    pub open spec fn ticked(self) -> Player {
        let v = next_velocity(self.velocity as int);
        let y = self.y + cells_moved(v);
        Player {
            x: (self.x + 1) as i32,
            y: (if y < 0 { 0 } else { y }) as i32,
            velocity: v as i32,
        }
    }

    /// The player after a flap.
    pub open spec fn flapped(self) -> Player {
        Player { velocity: FLAP_VELOCITY, ..self }
    }

    /// The player after `n` physics ticks.
    pub open spec fn after_ticks(self, n: nat) -> Player
        decreases n,
    {
        if n == 0 {
            self
        } else {
            self.after_ticks((n - 1) as nat).ticked()
        }
    }

    /// The player after a sequence of events, each a flap (`true`) or a
    /// physics tick (`false`).
    pub open spec fn after_events(self, events: Seq<bool>) -> Player
        decreases events.len(),
    {
        if events.len() == 0 {
            self
        } else {
            let before = self.after_events(events.drop_last());
            if events.last() {
                before.flapped()
            } else {
                before.ticked()
            }
        }
    }

    /// Whether a tick from here stays within the range of `i32`.
    pub open spec fn can_tick(&self) -> bool {
        let y = self.y + cells_moved(next_velocity(self.velocity as int));
        &&& self.x < i32::MAX
        &&& i32::MIN <= y <= i32::MAX
    }

    /// The command that draws the player: its glyph, always in the leftmost
    /// column.
    pub open spec fn glyph(self) -> DrawCommand {
        DrawCommand::Cell { x: 0, y: self.y, fg: Color::Yellow, bg: Color::Black, glyph: '@' }
    }

    /// A player at rest at the given position.
    pub fn new(x: i32, y: i32) -> (p: Player)
        ensures
            p == (Player { x, y, velocity: 0 }),
    {
        Player { x, y, velocity: 0 }
    }

    /// Draws the player.
    pub fn render(&self) -> (c: DrawCommand)
        ensures
            c == self.glyph(),
    {
        DrawCommand::Cell { x: 0, y: self.y, fg: Color::Yellow, bg: Color::Black, glyph: '@' }
    }

    /// One physics tick.
    pub fn gravity_and_move(&mut self)
        requires
            old(self).can_tick(),
        ensures
            *final(self) == old(self).ticked(),
    {
        if self.velocity < TERMINAL_VELOCITY {
            if self.velocity < TERMINAL_VELOCITY - GRAVITY {
                self.velocity = self.velocity + GRAVITY;
            } else {
                self.velocity = TERMINAL_VELOCITY;
            }
        }
        let v = self.velocity as i64;
        let scale = VELOCITY_SCALE as i64;
        let cells: i32 = if v >= 0 {
            (v / scale) as i32
        } else {
            // Rounding down a negative quotient: round up its magnitude.
            let up = (scale - 1 - v) / scale;
            proof {
                let (vi, ui) = (v as int, up as int);
                assert(-ui == vi / 10) by (nonlinear_arith)
                    requires
                        vi < 0,
                        ui == (9 - vi) / 10,
                ;
            }
            (-up) as i32
        };
        self.y = self.y + cells;
        self.x = self.x + 1;
        if self.y < 0 {
            self.y = 0;
        }
    }

    /// A flap: the velocity becomes `FLAP_VELOCITY`, whatever it was.
    pub fn flap(&mut self)
        ensures
            *final(self) == old(self).flapped(),
            final(self).velocity == FLAP_VELOCITY,
    {
        self.velocity = FLAP_VELOCITY;
    }
}

} // verus!
