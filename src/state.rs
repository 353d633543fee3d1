//! The simulation: the mode state machine and the per-frame update.
use vstd::prelude::*;

use bracket_lib::prelude::RandomNumberGenerator;

use crate::config::{
    BASE_GAP_SIZE, FRAME_DURATION_US, MAX_WORLD_X, SCREEN_HEIGHT, SCREEN_WIDTH, START_X, START_Y,
};
use crate::draw::{Color, DrawCommand};
use crate::obstacle::{gap_size, Obstacle};
use crate::player::Player;

verus! {

/// Which per-frame handler runs.
#[derive(Clone, Copy, Debug, PartialEq, Eq)]
pub enum GameMode {
    Menu,
    Playing,
    Dead,
}

/// The key the host saw in a frame.
#[derive(Clone, Copy, Debug, PartialEq, Eq)]
pub enum Input {
    /// Start (or restart) a run.
    Confirm,
    /// Flap upwards.
    Flap,
    /// Leave the game.
    Quit,
    /// Any other key.
    Other,
}

/// What the menu shows.
pub open spec fn menu_screen() -> Seq<DrawCommand> {
    seq![
        DrawCommand::Clear,
        DrawCommand::PrintCentered { y: 5, text: "Welcome to Flappy Bird" },
        DrawCommand::PrintCentered { y: 8, text: "(P) Play Game" },
        DrawCommand::PrintCentered { y: 9, text: "(Q) Quit Game" },
    ]
}

/// What the end screen shows for a final score.
pub open spec fn dead_screen(score: i32) -> Seq<DrawCommand> {
    seq![
        DrawCommand::Clear,
        DrawCommand::PrintCentered { y: 5, text: "You are dead" },
        DrawCommand::PrintNumberCentered {
            y: 6,
            before: "Your final score is: ",
            value: score,
            after: " !!",
        },
        DrawCommand::PrintCentered { y: 8, text: "(P) Play Again" },
        DrawCommand::PrintCentered { y: 9, text: "(Q) Quit Game" },
    ]
}

/// The quit request that a quit key adds to the menu and end screens.
pub open spec fn quit_request(key: Option<Input>) -> Seq<DrawCommand> {
    if key == Some(Input::Quit) {
        seq![DrawCommand::Quit]
    } else {
        seq![]
    }
}

/// The simulation. It owns one player and one obstacle, the score, the time
/// accumulated towards the next physics tick (in microseconds), and the
/// random source that places the gaps.
pub struct State {
    pub player: Player,
    pub frame_time: u64,
    pub mode: GameMode,
    pub obstacle: Obstacle,
    pub score: i32,
    pub rng: RandomNumberGenerator,
}

impl State {
    /// The invariant the simulation keeps in every mode.
    pub open spec fn wf(&self) -> bool {
        &&& self.player.inv()
        &&& self.obstacle.wf()
        &&& self.score >= 0
    }

    /// Whether a state is the start of a run: player at rest at its starting
    /// position, nothing accumulated, no score, and an obstacle one screen
    /// ahead with the widest gap.
    pub open spec fn is_fresh_run(&self) -> bool {
        &&& self.mode == GameMode::Playing
        &&& self.player == Player { x: START_X, y: START_Y, velocity: 0 }
        &&& self.frame_time == 0
        &&& self.score == 0
        &&& self.obstacle.wf()
        &&& self.obstacle.x == START_X + SCREEN_WIDTH
        &&& self.obstacle.size == BASE_GAP_SIZE
    }

    /// Whether one more playing frame stays within the range of the integer
    /// types: the world position, the row, the score and the obstacle's
    /// screen column all have room left.
    pub open spec fn has_room(&self) -> bool {
        &&& self.player.x < MAX_WORLD_X
        &&& self.player.y <= i32::MAX - 2
        &&& self.score < i32::MAX
        &&& i32::MIN <= self.obstacle.x - self.player.x - 1
        &&& self.obstacle.x - self.player.x <= i32::MAX
    }

    /// Time accumulated once `elapsed` is added (saturating).
    pub open spec fn accumulated(&self, elapsed: u64) -> int {
        if self.frame_time + elapsed > u64::MAX {
            u64::MAX as int
        } else {
            self.frame_time + elapsed
        }
    }

    /// Whether a playing frame of `elapsed` microseconds runs a physics tick.
    pub open spec fn ticks(&self, elapsed: u64) -> bool {
        self.accumulated(elapsed) > FRAME_DURATION_US
    }

    /// The player at the end of a playing frame: one physics tick if the
    /// accumulated time passed the threshold, then a flap if one was pressed.
    pub open spec fn player_after(&self, elapsed: u64, key: Option<Input>) -> Player {
        let p = if self.ticks(elapsed) {
            self.player.ticked()
        } else {
            self.player
        };
        if key == Some(Input::Flap) {
            p.flapped()
        } else {
            p
        }
    }

    /// One frame of the menu: the menu is shown; confirm starts a run and
    /// quit asks the host to stop; nothing else changes.
    pub open spec fn menu_step(&self, next: State, key: Option<Input>, cmds: Seq<DrawCommand>) -> bool {
        &&& cmds == menu_screen() + quit_request(key)
        &&& if key == Some(Input::Confirm) {
            next.is_fresh_run()
        } else {
            next == *self
        }
    }

    /// One frame of the end screen: the final score is shown; confirm starts
    /// a new run and quit asks the host to stop; nothing else changes.
    pub open spec fn dead_step(&self, next: State, key: Option<Input>, cmds: Seq<DrawCommand>) -> bool {
        &&& cmds == dead_screen(self.score) + quit_request(key)
        &&& if key == Some(Input::Confirm) {
            next.is_fresh_run()
        } else {
            next == *self
        }
    }

    /// One playing frame. The player moves as `player_after` says. Passing
    /// the obstacle's column scores a point and puts a new obstacle one screen
    /// ahead, sized for the new score. The run ends when the player is below
    /// the screen or touches the obstacle it faces after that replacement.
    /// The frame is drawn with the player as moved, the obstacle and score as
    /// they were.
    pub open spec fn play_step(
        &self,
        next: State,
        elapsed: u64,
        key: Option<Input>,
        cmds: Seq<DrawCommand>,
    ) -> bool {
        let p = self.player_after(elapsed, key);
        let passed = p.x > self.obstacle.x;
        &&& next.player == p
        &&& next.frame_time == if self.ticks(elapsed) {
            0
        } else {
            self.accumulated(elapsed)
        }
        &&& if passed {
            &&& next.score == self.score + 1
            &&& next.obstacle.wf()
            &&& next.obstacle.x == p.x + SCREEN_WIDTH
            &&& next.obstacle.size == gap_size(next.score as int)
        } else {
            &&& next.score == self.score
            &&& next.obstacle == self.obstacle
        }
        &&& next.mode == if p.y > SCREEN_HEIGHT || next.obstacle.hits(p) {
            GameMode::Dead
        } else {
            GameMode::Playing
        }
        &&& cmds == seq![DrawCommand::Fill { bg: Color::Navy }, p.glyph()] + self.obstacle.cells(
            p.x as int,
        ) + seq![
            DrawCommand::Print { x: 0, y: 0, text: "Press Space to Flap" },
            DrawCommand::PrintNumber { x: 0, y: 1, before: "Your score: ", value: self.score, after: "" },
        ]
    }

    /// One frame in whatever mode the simulation is in.
    pub open spec fn step(
        &self,
        next: State,
        elapsed: u64,
        key: Option<Input>,
        cmds: Seq<DrawCommand>,
    ) -> bool {
        match self.mode {
            GameMode::Menu => self.menu_step(next, key, cmds),
            GameMode::Playing => self.play_step(next, elapsed, key, cmds),
            GameMode::Dead => self.dead_step(next, key, cmds),
        }
    }

    /// A simulation at the menu, drawing gaps from `rng`.
    pub fn with_rng(rng: RandomNumberGenerator) -> (s: State)
        ensures
            s.wf(),
            s.mode == GameMode::Menu,
            s.player == (Player { x: START_X, y: START_Y, velocity: 0 }),
            s.frame_time == 0,
            s.score == 0,
            s.obstacle.x == START_X + SCREEN_WIDTH,
            s.obstacle.size == BASE_GAP_SIZE,
    {
        let mut rng = rng;
        let obstacle = Obstacle::new(START_X + SCREEN_WIDTH, 0, &mut rng);
        State {
            player: Player::new(START_X, START_Y),
            frame_time: 0,
            mode: GameMode::Menu,
            obstacle,
            score: 0,
            rng,
        }
    }

    /// A simulation at the menu, with a random source seeded from the
    /// operating system.
    pub fn new() -> (s: State)
        ensures
            s.wf(),
            s.mode == GameMode::Menu,
            s.player == (Player { x: START_X, y: START_Y, velocity: 0 }),
            s.frame_time == 0,
            s.score == 0,
            s.obstacle.x == START_X + SCREEN_WIDTH,
            s.obstacle.size == BASE_GAP_SIZE,
    {
        State::with_rng(RandomNumberGenerator::new())
    }

    /// A simulation at the menu whose gaps follow from `seed`.
    pub fn seeded(seed: u64) -> (s: State)
        ensures
            s.wf(),
            s.mode == GameMode::Menu,
            s.player == (Player { x: START_X, y: START_Y, velocity: 0 }),
            s.frame_time == 0,
            s.score == 0,
            s.obstacle.x == START_X + SCREEN_WIDTH,
            s.obstacle.size == BASE_GAP_SIZE,
    {
        State::with_rng(RandomNumberGenerator::seeded(seed))
    }

    /// Starts a run.
    pub fn restart(&mut self)
        ensures
            final(self).is_fresh_run(),
    {
        self.mode = GameMode::Playing;
        self.player = Player::new(START_X, START_Y);
        self.frame_time = 0;
        self.obstacle = Obstacle::new(START_X + SCREEN_WIDTH, 0, &mut self.rng);
        self.score = 0;
    }

    /// One frame of the menu.
    pub fn main_menu(&mut self, key: Option<Input>) -> (cmds: Vec<DrawCommand>)
        ensures
            old(self).menu_step(*final(self), key, cmds@),
    {
        let mut cmds: Vec<DrawCommand> = Vec::new();
        cmds.push(DrawCommand::Clear);
        cmds.push(DrawCommand::PrintCentered { y: 5, text: "Welcome to Flappy Bird" });
        cmds.push(DrawCommand::PrintCentered { y: 8, text: "(P) Play Game" });
        cmds.push(DrawCommand::PrintCentered { y: 9, text: "(Q) Quit Game" });
        match key {
            Some(Input::Confirm) => self.restart(),
            Some(Input::Quit) => cmds.push(DrawCommand::Quit),
            _ => {},
        }
        assert(cmds@ =~= menu_screen() + quit_request(key));
        cmds
    }

    /// One frame of the end screen.
    pub fn dead(&mut self, key: Option<Input>) -> (cmds: Vec<DrawCommand>)
        ensures
            old(self).dead_step(*final(self), key, cmds@),
    {
        let mut cmds: Vec<DrawCommand> = Vec::new();
        cmds.push(DrawCommand::Clear);
        cmds.push(DrawCommand::PrintCentered { y: 5, text: "You are dead" });
        cmds.push(
            DrawCommand::PrintNumberCentered {
                y: 6,
                before: "Your final score is: ",
                value: self.score,
                after: " !!",
            },
        );
        cmds.push(DrawCommand::PrintCentered { y: 8, text: "(P) Play Again" });
        cmds.push(DrawCommand::PrintCentered { y: 9, text: "(Q) Quit Game" });
        match key {
            Some(Input::Confirm) => self.restart(),
            Some(Input::Quit) => cmds.push(DrawCommand::Quit),
            _ => {},
        }
        assert(cmds@ =~= dead_screen(old(self).score) + quit_request(key));
        cmds
    }

    /// Whether one more playing frame has room within the integer types.
    pub fn has_room_for_frame(&self) -> (r: bool)
        ensures
            r == self.has_room(),
    {
        self.player.x < MAX_WORLD_X && self.player.y <= i32::MAX - 2 && self.score < i32::MAX
            && (self.obstacle.x as i64) - (self.player.x as i64) - 1 >= i32::MIN as i64
            && (self.obstacle.x as i64) - (self.player.x as i64) <= i32::MAX as i64
    }

    /// One playing frame of `elapsed_us` microseconds with `key` pressed.
    pub fn play(&mut self, elapsed_us: u64, key: Option<Input>) -> (cmds: Vec<DrawCommand>)
        requires
            old(self).wf(),
            old(self).has_room(),
        ensures
            final(self).wf(),
            old(self).play_step(*final(self), elapsed_us, key, cmds@),
    {
        let ghost start = *self;
        let mut cmds: Vec<DrawCommand> = Vec::new();
        cmds.push(DrawCommand::Fill { bg: Color::Navy });
        self.frame_time = self.frame_time.saturating_add(elapsed_us);
        if self.frame_time > FRAME_DURATION_US {
            self.frame_time = 0;
            self.player.gravity_and_move();
        }
        match key {
            Some(Input::Flap) => self.player.flap(),
            _ => {},
        }
        assert(self.player == start.player_after(elapsed_us, key));
        cmds.push(self.player.render());
        let mut bars = self.obstacle.render(self.player.x);
        cmds.append(&mut bars);
        cmds.push(DrawCommand::Print { x: 0, y: 0, text: "Press Space to Flap" });
        cmds.push(
            DrawCommand::PrintNumber { x: 0, y: 1, before: "Your score: ", value: self.score, after: "" },
        );
        if self.player.x > self.obstacle.x {
            self.score = self.score + 1;
            self.obstacle = Obstacle::new(self.player.x + SCREEN_WIDTH, self.score, &mut self.rng);
        }
        if self.player.y > SCREEN_HEIGHT || self.obstacle.hit_obstacle(&self.player) {
            self.mode = GameMode::Dead;
        } else {
            self.mode = GameMode::Playing;
        }
        assert(cmds@ =~= seq![DrawCommand::Fill { bg: Color::Navy }, self.player.glyph()]
            + start.obstacle.cells(self.player.x as int) + seq![
            DrawCommand::Print { x: 0, y: 0, text: "Press Space to Flap" },
            DrawCommand::PrintNumber { x: 0, y: 1, before: "Your score: ", value: start.score, after: "" },
        ]);
        cmds
    }

    /// One frame: the handler of the current mode runs, and returns what to
    /// draw. A frame that changes the mode runs the old mode's handler only.
    pub fn advance(&mut self, elapsed_us: u64, key: Option<Input>) -> (cmds: Vec<DrawCommand>)
        requires
            old(self).wf(),
            old(self).mode == GameMode::Playing ==> old(self).has_room(),
        ensures
            final(self).wf(),
            old(self).step(*final(self), elapsed_us, key, cmds@),
    {
        match self.mode {
            GameMode::Menu => self.main_menu(key),
            GameMode::Playing => self.play(elapsed_us, key),
            GameMode::Dead => self.dead(key),
        }
    }
}

} // verus!
