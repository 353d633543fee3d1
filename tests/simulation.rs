use bracket_lib::prelude::RandomNumberGenerator;
use flappy::config::{FRAME_DURATION_US, SCREEN_HEIGHT, SCREEN_WIDTH};
use flappy::draw::{Color, DrawCommand};
use flappy::obstacle::Obstacle;
use flappy::player::Player;
use flappy::state::{GameMode, Input, State};

fn playing_state(player: Player, obstacle: Obstacle, score: i32) -> State {
    State {
        player,
        frame_time: 0,
        mode: GameMode::Playing,
        obstacle,
        score,
        rng: RandomNumberGenerator::seeded(42),
    }
}

#[test]
fn gap_size_shrinks_with_score_down_to_two() {
    let cases = [(0, 20), (1, 19), (5, 15), (17, 3), (18, 2), (19, 2), (25, 2), (1000, 2)];
    for (score, size) in cases {
        let o = Obstacle::with_gap(100, 25, score);
        assert_eq!(o.size, size, "score {}", score);
        assert_eq!(o.x, 100);
        assert_eq!(o.gap_y, 25);
    }
}

#[test]
fn new_obstacle_gap_centre_is_random_in_range() {
    let mut rng = RandomNumberGenerator::seeded(3);
    let mut seen_other_than_low = false;
    for score in 0..200 {
        let o = Obstacle::new(7, score, &mut rng);
        assert!(o.gap_y >= 10 && o.gap_y < 40);
        assert_eq!(o.x, 7);
        assert_eq!(o.size, std::cmp::max(2, 20 - score));
        if o.gap_y != 10 {
            seen_other_than_low = true;
        }
    }
    assert!(seen_other_than_low);
}

#[test]
fn velocity_after_ticks_from_rest() {
    for n in 0..30 {
        let mut p = Player::new(5, 25);
        for _ in 0..n {
            p.gravity_and_move();
        }
        assert_eq!(p.velocity, std::cmp::min(20, 2 * n), "after {} ticks", n);
        assert_eq!(p.x, 5 + n);
    }
}

#[test]
fn tick_moves_by_truncated_velocity() {
    let mut p = Player { x: 0, y: 10, velocity: 14 };
    p.gravity_and_move();
    assert_eq!(p, Player { x: 1, y: 11, velocity: 16 });
    let mut p = Player { x: 0, y: 10, velocity: 19 };
    p.gravity_and_move();
    assert_eq!(p, Player { x: 1, y: 12, velocity: 20 });
    let mut p = Player { x: 0, y: 10, velocity: -20 };
    p.gravity_and_move();
    assert_eq!(p, Player { x: 1, y: 8, velocity: -18 });
    let mut p = Player { x: 0, y: 10, velocity: -10 };
    p.gravity_and_move();
    assert_eq!(p, Player { x: 1, y: 9, velocity: -8 });
}

#[test]
fn flap_sets_velocity_whatever_it_was() {
    for v in [-20, -7, 0, 3, 20] {
        let mut p = Player { x: 3, y: 4, velocity: v };
        p.flap();
        assert_eq!(p, Player { x: 3, y: 4, velocity: -20 });
    }
}

#[test]
fn row_is_clamped_at_the_top() {
    let mut p = Player::new(0, 1);
    for _ in 0..20 {
        p.flap();
        p.gravity_and_move();
        assert!(p.y >= 0);
    }
    assert_eq!(p.y, 0);
}

#[test]
fn collision_only_in_the_column_and_outside_the_gap() {
    let o = Obstacle { x: 10, gap_y: 25, size: 10 };
    let at = |x: i32, y: i32| Player { x, y, velocity: 0 };
    assert!(o.hit_obstacle(&at(10, 19)));
    assert!(!o.hit_obstacle(&at(10, 20)));
    assert!(!o.hit_obstacle(&at(10, 25)));
    assert!(!o.hit_obstacle(&at(10, 30)));
    assert!(o.hit_obstacle(&at(10, 31)));
    assert!(o.hit_obstacle(&at(10, 0)));
    assert!(!o.hit_obstacle(&at(9, 0)));
    assert!(!o.hit_obstacle(&at(11, 49)));
}

#[test]
fn player_is_drawn_in_the_first_column() {
    let p = Player { x: 33, y: 12, velocity: 4 };
    assert_eq!(
        p.render(),
        DrawCommand::Cell { x: 0, y: 12, fg: Color::Yellow, bg: Color::Black, glyph: '@' }
    );
}

#[test]
fn obstacle_is_drawn_around_its_gap() {
    let o = Obstacle { x: 30, gap_y: 25, size: 10 };
    let cmds = o.render(12);
    assert_eq!(cmds.len(), 20 + 20);
    for (i, c) in cmds.iter().enumerate() {
        let row = if i < 20 { i as i32 } else { 30 + (i as i32 - 20) };
        assert_eq!(*c, DrawCommand::Cell { x: 18, y: row, fg: Color::Red, bg: Color::Black, glyph: '|' });
    }
    let o = Obstacle { x: 5, gap_y: 10, size: 20 };
    let cmds = o.render(5);
    assert_eq!(cmds.len(), 30);
    assert_eq!(cmds[0], DrawCommand::Cell { x: 0, y: 20, fg: Color::Red, bg: Color::Black, glyph: '|' });
}

#[test]
fn forty_ticks_from_rest_reach_the_cap_without_collision() {
    let mut p = Player { x: 5, y: 25, velocity: 0 };
    let o = Obstacle { x: 80, gap_y: 25, size: 18 };
    for _ in 0..40 {
        p.gravity_and_move();
        assert!(!o.hit_obstacle(&p));
    }
    assert_eq!(p.x, 45);
    assert_eq!(p.velocity, 20);
}

#[test]
fn confirm_on_menu_starts_a_run() {
    let mut s = State::seeded(9);
    assert_eq!(s.mode, GameMode::Menu);
    s.score = 4;
    let cmds = s.advance(16_000, Some(Input::Confirm));
    assert_eq!(s.mode, GameMode::Playing);
    assert_eq!(s.score, 0);
    assert_eq!(s.obstacle.size, 20);
    assert_eq!(s.obstacle.x, 5 + SCREEN_WIDTH);
    assert_eq!(s.player, Player { x: 5, y: 25, velocity: 0 });
    assert_eq!(s.frame_time, 0);
    assert_eq!(
        cmds,
        vec![
            DrawCommand::Clear,
            DrawCommand::PrintCentered { y: 5, text: "Welcome to Flappy Bird" },
            DrawCommand::PrintCentered { y: 8, text: "(P) Play Game" },
            DrawCommand::PrintCentered { y: 9, text: "(Q) Quit Game" },
        ]
    );
}

#[test]
fn menu_quit_and_other_keys() {
    let mut s = State::seeded(9);
    let cmds = s.advance(16_000, Some(Input::Quit));
    assert_eq!(cmds.last(), Some(&DrawCommand::Quit));
    assert_eq!(cmds.len(), 5);
    assert_eq!(s.mode, GameMode::Menu);
    let cmds = s.advance(16_000, Some(Input::Flap));
    assert_eq!(cmds.len(), 4);
    assert_eq!(s.mode, GameMode::Menu);
    let cmds = s.advance(16_000, None);
    assert_eq!(cmds.len(), 4);
    assert_eq!(s.mode, GameMode::Menu);
}

#[test]
fn below_the_screen_ends_the_run() {
    let mut s = playing_state(Player { x: 5, y: 51, velocity: 0 }, Obstacle { x: 80, gap_y: 25, size: 20 }, 3);
    assert!(s.player.y > SCREEN_HEIGHT);
    s.advance(1_000, None);
    assert_eq!(s.mode, GameMode::Dead);
    assert_eq!(s.score, 3);
}

#[test]
fn an_upward_tick_can_lift_the_player_back_on_screen() {
    let mut s = playing_state(Player { x: 5, y: 51, velocity: -20 }, Obstacle { x: 80, gap_y: 25, size: 20 }, 0);
    s.advance(FRAME_DURATION_US + 1, None);
    assert_eq!(s.player, Player { x: 6, y: 49, velocity: -18 });
    assert_eq!(s.mode, GameMode::Playing);
}

#[test]
fn touching_the_barrier_ends_the_run() {
    let mut s = playing_state(Player { x: 79, y: 2, velocity: 0 }, Obstacle { x: 80, gap_y: 25, size: 20 }, 0);
    s.advance(FRAME_DURATION_US + 1, None);
    assert_eq!(s.player.x, 80);
    assert_eq!(s.mode, GameMode::Dead);
}

#[test]
fn flying_through_the_gap_keeps_playing() {
    let mut s = playing_state(Player { x: 79, y: 25, velocity: 0 }, Obstacle { x: 80, gap_y: 25, size: 20 }, 0);
    s.advance(FRAME_DURATION_US + 1, None);
    assert_eq!(s.player.x, 80);
    assert_eq!(s.mode, GameMode::Playing);
}

#[test]
fn passing_an_obstacle_scores_and_replaces_it() {
    let mut s = playing_state(Player { x: 80, y: 25, velocity: 0 }, Obstacle { x: 80, gap_y: 25, size: 20 }, 6);
    s.advance(FRAME_DURATION_US + 1, None);
    assert_eq!(s.player.x, 81);
    assert_eq!(s.score, 7);
    assert_eq!(s.obstacle.x, 81 + SCREEN_WIDTH);
    assert_eq!(s.obstacle.size, 13);
    assert!(s.obstacle.gap_y >= 10 && s.obstacle.gap_y < 40);
    assert_eq!(s.mode, GameMode::Playing);
}

#[test]
fn physics_ticks_only_past_the_frame_duration() {
    let mut s = playing_state(Player { x: 5, y: 25, velocity: 0 }, Obstacle { x: 80, gap_y: 25, size: 20 }, 0);
    s.advance(FRAME_DURATION_US, None);
    assert_eq!(s.player.x, 5);
    assert_eq!(s.frame_time, FRAME_DURATION_US);
    s.advance(1, None);
    assert_eq!(s.player.x, 6);
    assert_eq!(s.player.velocity, 2);
    assert_eq!(s.frame_time, 0);
    s.advance(40_000, None);
    s.advance(40_000, None);
    assert_eq!(s.player.x, 7);
    assert_eq!(s.frame_time, 0);
}

#[test]
fn flap_in_play_works_without_a_tick() {
    let mut s = playing_state(Player { x: 5, y: 25, velocity: 14 }, Obstacle { x: 80, gap_y: 25, size: 20 }, 0);
    s.advance(10, Some(Input::Flap));
    assert_eq!(s.player, Player { x: 5, y: 25, velocity: -20 });
    assert_eq!(s.frame_time, 10);
}

#[test]
fn playing_frame_draws_player_obstacle_and_score() {
    let mut s = playing_state(Player { x: 40, y: 25, velocity: 0 }, Obstacle { x: 80, gap_y: 25, size: 20 }, 2);
    let cmds = s.advance(10, None);
    assert_eq!(cmds[0], DrawCommand::Fill { bg: Color::Navy });
    assert_eq!(cmds[1], DrawCommand::Cell { x: 0, y: 25, fg: Color::Yellow, bg: Color::Black, glyph: '@' });
    assert_eq!(cmds[2], DrawCommand::Cell { x: 40, y: 0, fg: Color::Red, bg: Color::Black, glyph: '|' });
    assert_eq!(cmds.len(), 2 + 15 + 15 + 2);
    assert_eq!(cmds[cmds.len() - 2], DrawCommand::Print { x: 0, y: 0, text: "Press Space to Flap" });
    assert_eq!(
        cmds[cmds.len() - 1],
        DrawCommand::PrintNumber { x: 0, y: 1, before: "Your score: ", value: 2, after: "" }
    );
}

#[test]
fn dead_screen_shows_score_and_restarts() {
    let mut s = playing_state(Player { x: 5, y: 60, velocity: 0 }, Obstacle { x: 80, gap_y: 25, size: 20 }, 11);
    s.mode = GameMode::Dead;
    let cmds = s.advance(16_000, None);
    assert_eq!(s.mode, GameMode::Dead);
    assert_eq!(
        cmds,
        vec![
            DrawCommand::Clear,
            DrawCommand::PrintCentered { y: 5, text: "You are dead" },
            DrawCommand::PrintNumberCentered { y: 6, before: "Your final score is: ", value: 11, after: " !!" },
            DrawCommand::PrintCentered { y: 8, text: "(P) Play Again" },
            DrawCommand::PrintCentered { y: 9, text: "(Q) Quit Game" },
        ]
    );
    let cmds = s.advance(16_000, Some(Input::Quit));
    assert_eq!(cmds.last(), Some(&DrawCommand::Quit));
    s.advance(16_000, Some(Input::Confirm));
    assert_eq!(s.mode, GameMode::Playing);
    assert_eq!(s.score, 0);
    assert_eq!(s.player, Player { x: 5, y: 25, velocity: 0 });
    assert_eq!(s.obstacle.size, 20);
}

#[test]
fn room_for_a_frame() {
    let s = State::seeded(1);
    assert!(s.has_room_for_frame());
    let s = playing_state(Player { x: i32::MAX - 10, y: 25, velocity: 0 }, Obstacle { x: 80, gap_y: 25, size: 20 }, 0);
    assert!(!s.has_room_for_frame());
}
