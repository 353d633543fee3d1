//! Properties of the simulation that span several steps or several functions.
use vstd::prelude::*;

use vstd::math::{max, min};

use crate::config::{
    BASE_GAP_SIZE, FLAP_VELOCITY, GAP_Y_MAX, GAP_Y_MIN, GRAVITY, MIN_GAP_SIZE, SCREEN_HEIGHT, SCREEN_WIDTH,
    START_X, START_Y, TERMINAL_VELOCITY,
};
use crate::draw::DrawCommand;
use crate::obstacle::gap_size;
use crate::player::{cells_moved, next_velocity, Player};
use crate::state::{GameMode, Input, State};

verus! {

/// For every score `s >= 0` the gap size is `max(MIN_GAP_SIZE, BASE_GAP_SIZE - s)`,
/// so it is never below `MIN_GAP_SIZE` and never above the size at score 0.
pub proof fn lemma_gap_size(s: int)
    requires
        s >= 0,
    ensures
        gap_size(s) == max(MIN_GAP_SIZE as int, BASE_GAP_SIZE - s),
        MIN_GAP_SIZE <= gap_size(s) <= gap_size(0),
{
}

/// Every frame keeps the obstacle's gap sized for the current score: a state
/// whose gap is `gap_size(score)` with `score >= 0` moves to one where the same
/// holds, so the gap is never below `MIN_GAP_SIZE`.
pub proof fn lemma_gap_follows_score(
    s: State,
    next: State,
    elapsed: u64,
    key: Option<Input>,
    cmds: Seq<DrawCommand>,
)
    requires
        s.step(next, elapsed, key, cmds),
        s.score >= 0,
        s.obstacle.size == gap_size(s.score as int),
    ensures
        next.score >= 0,
        next.obstacle.size == gap_size(next.score as int),
        next.obstacle.size >= MIN_GAP_SIZE,
{
}

/// Starting from rest, after `n` physics ticks without a flap the velocity is
/// `min(TERMINAL_VELOCITY, GRAVITY * n)` and the player is `n` columns further
/// on. Each call of `Player::gravity_and_move` is one such tick.
pub proof fn lemma_velocity_after_ticks(p: Player, n: nat)
    requires
        p.velocity == 0,
        p.x + n <= i32::MAX,
    ensures
        p.after_ticks(n).velocity == min(TERMINAL_VELOCITY as int, GRAVITY * n),
        p.after_ticks(n).x == p.x + n,
    decreases n,
{
    if n > 0 {
        lemma_velocity_after_ticks(p, (n - 1) as nat);
    }
}

/// A flap sets the velocity to `FLAP_VELOCITY` whatever it was before, and
/// moves the player neither forward nor up or down. A playing frame with a
/// flap key ends with exactly that velocity, whether a physics tick ran or
/// not, at the position the frame would have reached without the flap.
pub proof fn lemma_flap_velocity(
    p: Player,
    s: State,
    next: State,
    elapsed: u64,
    cmds: Seq<DrawCommand>,
)
    requires
        s.play_step(next, elapsed, Some(Input::Flap), cmds),
    ensures
        p.flapped().velocity == FLAP_VELOCITY,
        p.flapped().x == p.x,
        p.flapped().y == p.y,
        next.player.velocity == FLAP_VELOCITY,
        next.player.x == s.player_after(elapsed, None).x,
        next.player.y == s.player_after(elapsed, None).y,
{
}

/// After any sequence of physics ticks and flaps, a player that started on
/// or below the top row, with a velocity the simulation can give, is still on
/// or below it. Each event moves it by at most two rows; `requires` asks for
/// that much room below `i32::MAX`.
pub proof fn lemma_row_never_negative(p: Player, events: Seq<bool>)
    requires
        p.inv(),
        p.y + 2 * events.len() <= i32::MAX,
    ensures
        p.after_events(events).y >= 0,
        p.after_events(events).inv(),
        p.after_events(events).y <= p.y + 2 * events.len(),
    decreases events.len(),
{
    if events.len() > 0 {
        lemma_row_never_negative(p, events.drop_last());
        let before = p.after_events(events.drop_last());
        assert(-2 <= cells_moved(next_velocity(before.velocity as int)) <= 2);
    }
}

/// Every frame keeps the player on or below the top row, in every mode and
/// for every key and elapsed time, so no sequence of frames from a valid state
/// puts it above the screen.
pub proof fn lemma_frame_keeps_row_nonnegative(
    s: State,
    next: State,
    elapsed: u64,
    key: Option<Input>,
    cmds: Seq<DrawCommand>,
)
    requires
        s.wf(),
        s.mode == GameMode::Playing ==> s.has_room(),
        s.step(next, elapsed, key, cmds),
    ensures
        next.player.y >= 0,
{
    assert(-2 <= cells_moved(next_velocity(s.player.velocity as int)) <= 2);
}

/// Passing an obstacle in a playing frame scores exactly one point and puts a
/// new obstacle one screen ahead of the player, sized for the new score; the
/// new obstacle cannot end the run in that same frame.
pub proof fn lemma_passing_scores(
    s: State,
    next: State,
    elapsed: u64,
    key: Option<Input>,
    cmds: Seq<DrawCommand>,
)
    requires
        s.play_step(next, elapsed, key, cmds),
        next.player.x > s.obstacle.x,
    ensures
        next.score == s.score + 1,
        next.obstacle.x == next.player.x + SCREEN_WIDTH,
        next.obstacle.size == gap_size(next.score as int),
        GAP_Y_MIN <= next.obstacle.gap_y < GAP_Y_MAX,
        !next.obstacle.hits(next.player),
{
}

/// A playing frame ends the run exactly when the player is below the screen
/// or touches the obstacle it faces; otherwise play goes on.
pub proof fn lemma_death_condition(
    s: State,
    next: State,
    elapsed: u64,
    key: Option<Input>,
    cmds: Seq<DrawCommand>,
)
    requires
        s.play_step(next, elapsed, key, cmds),
    ensures
        (next.mode == GameMode::Dead) <==> (next.player.y > SCREEN_HEIGHT || next.obstacle.hits(
            next.player,
        )),
        next.mode == GameMode::Dead || next.mode == GameMode::Playing,
{
}

/// A playing frame that starts below the screen ends the run, whatever the
/// obstacle, unless a physics tick carries the player up this frame: the
/// frame either runs no tick, or starts with a velocity that is not upwards.
pub proof fn lemma_below_screen_ends_run(
    s: State,
    next: State,
    elapsed: u64,
    key: Option<Input>,
    cmds: Seq<DrawCommand>,
)
    requires
        s.mode == GameMode::Playing,
        s.wf(),
        s.has_room(),
        s.player.y > SCREEN_HEIGHT,
        !s.ticks(elapsed) || s.player.velocity >= 0,
        s.step(next, elapsed, key, cmds),
    ensures
        next.mode == GameMode::Dead,
{
    if s.player.velocity >= 0 {
        assert(0 <= cells_moved(next_velocity(s.player.velocity as int)) <= 2);
    }
}

/// Confirming on the menu or the end screen starts a run with score 0, the
/// player at rest at its starting position, and an obstacle whose gap is the
/// widest any score gives.
pub proof fn lemma_restart_resets(
    s: State,
    next: State,
    key: Option<Input>,
    cmds: Seq<DrawCommand>,
    any_score: int,
)
    requires
        s.menu_step(next, key, cmds) || s.dead_step(next, key, cmds),
        key == Some(Input::Confirm),
        any_score >= 0,
    ensures
        next.mode == GameMode::Playing,
        next.score == 0,
        next.player == (Player { x: START_X, y: START_Y, velocity: 0 }),
        next.frame_time == 0,
        next.obstacle.size == gap_size(0),
        next.obstacle.size >= gap_size(any_score),
{
}

} // verus!
