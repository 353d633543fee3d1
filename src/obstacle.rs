//! Obstacles: a vertical barrier at a fixed world position with a gap in it.
use vstd::prelude::*;

use bracket_lib::prelude::RandomNumberGenerator;

use crate::config::{BASE_GAP_SIZE, GAP_Y_MAX, GAP_Y_MIN, MIN_GAP_SIZE, SCREEN_HEIGHT};
use crate::draw::{Color, DrawCommand};
use crate::player::Player;
use crate::rng::random_in_range;

verus! {

/// Gap size of an obstacle created at a given score: it shrinks by one per
/// point from `BASE_GAP_SIZE`, down to `MIN_GAP_SIZE`.
pub open spec fn gap_size(score: int) -> int {
    if BASE_GAP_SIZE - score > MIN_GAP_SIZE {
        BASE_GAP_SIZE - score
    } else {
        MIN_GAP_SIZE as int
    }
}

/// The command that draws one cell of a barrier.
pub open spec fn bar_cell(x: int, y: int) -> DrawCommand {
    DrawCommand::Cell { x: x as i32, y: y as i32, fg: Color::Red, bg: Color::Black, glyph: '|' }
}

/// One barrier. `x` is its world position, `gap_y` the centre row of its
/// gap and `size` the gap's height.
#[derive(Clone, Copy, Debug, PartialEq, Eq)]
pub struct Obstacle {
    pub x: i32,
    pub gap_y: i32,
    pub size: i32,
}

impl Obstacle {
    /// An obstacle as the simulation creates them: the gap centre in its
    /// range and the size between the smallest and the widest gap.
    pub open spec fn wf(&self) -> bool {
        &&& GAP_Y_MIN <= self.gap_y < GAP_Y_MAX
        &&& MIN_GAP_SIZE <= self.size <= BASE_GAP_SIZE
    }

    /// First row of the gap.
    pub open spec fn gap_top(&self) -> int {
        self.gap_y - self.size / 2
    }

    /// Row just below the gap.
    pub open spec fn gap_bottom(&self) -> int {
        self.gap_y + self.size / 2
    }

    /// Whether the player touches the barrier: it stands in the barrier's
    /// column and outside the gap band.
    pub open spec fn hits(&self, player: Player) -> bool {
        &&& self.x == player.x
        &&& (player.y < self.gap_top() || player.y > self.gap_bottom())
    }

    /// The barrier's cells on screen, seen from world position `player_x`:
    /// the rows above the gap, then the rows from the gap's end to the
    /// bottom of the screen.
    pub open spec fn cells(&self, player_x: int) -> Seq<DrawCommand> {
        let sx = self.x - player_x;
        let top = if self.gap_top() > 0 { self.gap_top() } else { 0 };
        let bottom = if SCREEN_HEIGHT - self.gap_bottom() > 0 {
            SCREEN_HEIGHT - self.gap_bottom()
        } else {
            0
        };
        Seq::new(top as nat, |i: int| bar_cell(sx, i)) + Seq::new(
            bottom as nat,
            |i: int| bar_cell(sx, self.gap_bottom() + i),
        )
    }

    /// An obstacle at world position `x` whose gap is centred on `gap_y`,
    /// sized for `score`.
    pub fn with_gap(x: i32, gap_y: i32, score: i32) -> (o: Obstacle)
        requires
            score >= 0,
        ensures
            o.x == x,
            o.gap_y == gap_y,
            o.size == gap_size(score as int),
    {
        let size = if BASE_GAP_SIZE - score > MIN_GAP_SIZE {
            BASE_GAP_SIZE - score
        } else {
            MIN_GAP_SIZE
        };
        Obstacle { x, gap_y, size }
    }

    /// A new obstacle at world position `x`, sized for `score`, its gap
    /// centre drawn from `rng` in `[GAP_Y_MIN, GAP_Y_MAX)`.
    pub fn new(x: i32, score: i32, rng: &mut RandomNumberGenerator) -> (o: Obstacle)
        requires
            score >= 0,
        ensures
            o.wf(),
            o.x == x,
            o.size == gap_size(score as int),
    {
        let gap_y = random_in_range(rng, GAP_Y_MIN, GAP_Y_MAX);
        Obstacle::with_gap(x, gap_y, score)
    }

    /// The commands that draw the barrier, seen from world position
    /// `player_x`: it stands in screen column `x - player_x`.
    pub fn render(&self, player_x: i32) -> (cmds: Vec<DrawCommand>)
        requires
            self.wf(),
            i32::MIN <= self.x - player_x <= i32::MAX,
        ensures
            cmds@ == self.cells(player_x as int),
    {
        let screen_x = self.x - player_x;
        let half_size = self.size / 2;
        let top = self.gap_y - half_size;
        let bottom = self.gap_y + half_size;
        let ghost sx = self.x - player_x;
        let mut cmds: Vec<DrawCommand> = Vec::new();
        let mut y: i32 = 0;
        while y < top
            invariant
                0 <= y <= top,
                top == self.gap_top(),
                screen_x == sx,
                cmds@ == Seq::new(y as nat, |i: int| bar_cell(sx, i)),
            decreases top - y,
        {
            cmds.push(DrawCommand::Cell { x: screen_x, y, fg: Color::Red, bg: Color::Black, glyph: '|' });
            y = y + 1;
            proof {
                assert(cmds@ =~= Seq::new(y as nat, |i: int| bar_cell(sx, i)));
            }
        }
        let ghost upper = cmds@;
        assert(upper =~= Seq::new(
            (if self.gap_top() > 0 { self.gap_top() } else { 0 }) as nat,
            |i: int| bar_cell(sx, i),
        ));
        let mut y: i32 = bottom;
        while y < SCREEN_HEIGHT
            invariant
                bottom <= y <= SCREEN_HEIGHT,
                bottom == self.gap_bottom(),
                bottom < SCREEN_HEIGHT,
                screen_x == sx,
                cmds@ == upper + Seq::new(
                    (y - bottom) as nat,
                    |i: int| bar_cell(sx, bottom + i),
                ),
            decreases SCREEN_HEIGHT - y,
        {
            cmds.push(DrawCommand::Cell { x: screen_x, y, fg: Color::Red, bg: Color::Black, glyph: '|' });
            y = y + 1;
            proof {
                assert(cmds@ =~= upper + Seq::new(
                    (y - bottom) as nat,
                    |i: int| bar_cell(sx, bottom + i),
                ));
            }
        }
        assert(cmds@ =~= self.cells(player_x as int));
        cmds
    }

    /// Whether `player` touches this barrier.
    pub fn hit_obstacle(&self, player: &Player) -> (r: bool)
        requires
            self.wf(),
        ensures
            r == self.hits(*player),
    {
        let half_size = self.size / 2;
        let x_overlap = self.x == player.x;
        let y_overlap = player.y < self.gap_y - half_size || player.y > self.gap_y + half_size;
        x_overlap && y_overlap
    }
}

} // verus!
