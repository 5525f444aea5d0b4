use rust_test_game::engine::{GLFW_KEY_ESCAPE, GLFW_KEY_R, GLFW_KEY_W, GLFW_PRESS};
use rust_test_game::game::{DrawCommand, FrameOutcome, GameState, KeyInput, SpriteRole, StepOutcome};
use rust_test_game::grid::{Direction, CELL_SIZE, GRID_H, GRID_W, MOVE_INTERVAL_US};
use rust_test_game::remote::SpriteConfig;

const T: u64 = MOVE_INTERVAL_US;

fn keys_none() -> KeyInput {
    KeyInput::default()
}

fn key_up() -> KeyInput {
    KeyInput { w: true, ..KeyInput::default() }
}

fn key_left() -> KeyInput {
    KeyInput { left: true, ..KeyInput::default() }
}

fn key_down() -> KeyInput {
    KeyInput { s: true, ..KeyInput::default() }
}

fn key_right() -> KeyInput {
    KeyInput { right: true, ..KeyInput::default() }
}

/// Steers with `keys` and then makes one move, `T` after the last one.
fn step(g: &mut GameState, keys: &KeyInput) -> StepOutcome {
    let now = g.last_update_us() + T;
    g.handle_input(keys, now);
    g.update(now)
}

/// A game whose snake has just eaten the first food, at (20, 10), heading up.
fn game_after_first_meal() -> GameState {
    let mut g = GameState::new(0);
    for _ in 0..10 {
        assert_eq!(step(&mut g, &keys_none()), StepOutcome::Moved);
    }
    assert_eq!(g.snake()[0], (20, 15));
    for _ in 0..4 {
        assert_eq!(step(&mut g, &key_up()), StepOutcome::Moved);
    }
    assert_eq!(step(&mut g, &key_up()), StepOutcome::Ate);
    g
}

#[test]
fn new_game_starts_as_documented() {
    let g = GameState::new(5);
    assert_eq!(g.snake(), &[(10, 15), (9, 15), (8, 15)]);
    assert_eq!(g.direction(), Direction::Right);
    assert_eq!(g.next_direction(), Direction::Right);
    assert_eq!(g.food_pos(), (20, 10));
    assert_eq!(g.food_color(), (255, 220, 0));
    assert_eq!(g.score(), 0);
    assert!(!g.is_game_over());
    assert_eq!(g.last_update_us(), 5);
    assert!(g.wants_remote_config());
}

#[test]
fn grid_matches_window() {
    assert_eq!(GRID_W * CELL_SIZE, 800);
    assert_eq!(GRID_H * CELL_SIZE, 600);
    assert_eq!(MOVE_INTERVAL_US, 120_000);
    assert_eq!(GLFW_PRESS, 1);
    assert_eq!(GLFW_KEY_W, 87);
    assert_eq!(GLFW_KEY_R, 82);
    assert_eq!(GLFW_KEY_ESCAPE, 256);
}

#[test]
fn no_move_before_the_interval() {
    let mut g = GameState::new(1_000);
    assert_eq!(g.update(1_000 + T - 1), StepOutcome::Idle);
    assert_eq!(g.snake()[0], (10, 15));
    assert_eq!(g.last_update_us(), 1_000);
    // A clock that went back does not move the snake either.
    assert_eq!(g.update(0), StepOutcome::Idle);
    assert_eq!(g.update(1_000 + T), StepOutcome::Moved);
    assert_eq!(g.snake(), &[(11, 15), (10, 15), (9, 15)]);
    assert_eq!(g.last_update_us(), 1_000 + T);
    assert_eq!(g.update(1_000 + T + T - 1), StepOutcome::Idle);
}

#[test]
fn hitting_the_right_wall_ends_the_game() {
    let mut g = GameState::new(0);
    for _ in 0..29 {
        assert_eq!(step(&mut g, &keys_none()), StepOutcome::Moved);
    }
    assert_eq!(g.snake()[0], (39, 15));
    assert_eq!(step(&mut g, &keys_none()), StepOutcome::HitWall);
    assert!(g.is_game_over());
    assert_eq!(g.snake()[0], (39, 15));
    assert_eq!(g.score(), 0);
}

#[test]
fn hitting_the_top_wall_ends_the_game() {
    let mut g = GameState::new(0);
    for _ in 0..15 {
        assert_eq!(step(&mut g, &key_up()), StepOutcome::Moved);
    }
    assert_eq!(g.snake()[0], (10, 0));
    assert_eq!(step(&mut g, &keys_none()), StepOutcome::HitWall);
    assert!(g.is_game_over());
}

#[test]
fn eating_grows_scores_and_moves_food() {
    let g = game_after_first_meal();
    assert_eq!(g.score(), 1);
    assert_eq!(g.snake(), &[(20, 10), (20, 11), (20, 12), (20, 13)]);
    assert_eq!(g.food_pos(), (28, 28));
    assert_eq!(g.snake().len(), g.score() as usize + 3);
}

#[test]
fn next_food_position_formula() {
    let g = GameState::new(0);
    // score 0: (1013904223 % 40, 1 % 30)
    assert_eq!(g.next_food_pos(), (23, 1));
    let g = game_after_first_meal();
    // score 1: ((1664525 + 1013904223) % 40, (22695477 + 1) % 30)
    assert_eq!(g.next_food_pos(), (28, 28));
}

#[test]
fn running_into_the_tail_ends_the_game() {
    let mut g = game_after_first_meal();
    assert_eq!(step(&mut g, &key_left()), StepOutcome::Moved);
    assert_eq!(step(&mut g, &key_down()), StepOutcome::Moved);
    assert_eq!(g.snake(), &[(19, 11), (19, 10), (20, 10), (20, 11)]);
    // The cell ahead is the tail's: that counts as running into the body.
    assert_eq!(step(&mut g, &key_right()), StepOutcome::HitSelf);
    assert!(g.is_game_over());
    assert_eq!(g.direction(), Direction::Right);
}

#[test]
fn game_over_is_final_until_restart() {
    let mut g = GameState::new(0);
    for _ in 0..30 {
        step(&mut g, &keys_none());
    }
    assert!(g.is_game_over());
    let snake: Vec<(i32, i32)> = g.snake().to_vec();
    let last = g.last_update_us();
    assert_eq!(g.update(last + 10 * T), StepOutcome::Idle);
    g.handle_input(&key_up(), last + 10 * T);
    assert!(g.is_game_over());
    assert_eq!(g.snake(), &snake[..]);
    g.handle_input(&KeyInput { r: true, ..KeyInput::default() }, 7_777);
    assert!(!g.is_game_over());
    assert_eq!(g.snake(), &[(10, 15), (9, 15), (8, 15)]);
    assert_eq!(g.direction(), Direction::Right);
    assert_eq!(g.next_direction(), Direction::Right);
    assert_eq!(g.food_pos(), (20, 10));
    assert_eq!(g.score(), 0);
    assert_eq!(g.last_update_us(), 7_777);
}

#[test]
fn restart_key_is_ignored_while_playing() {
    let mut g = GameState::new(0);
    assert_eq!(step(&mut g, &keys_none()), StepOutcome::Moved);
    g.handle_input(&KeyInput { r: true, ..KeyInput::default() }, 999_999);
    assert_eq!(g.snake()[0], (11, 15));
    assert_eq!(g.last_update_us(), T);
}

#[test]
fn reset_keeps_remote_flag_and_restores_colour() {
    let mut g = GameState::new(0);
    g.apply_remote_config(SpriteConfig { x: 100, y: 100, r: 1, g: 2, b: 3 });
    step(&mut g, &keys_none());
    g.reset(42);
    assert_eq!(g.food_color(), (255, 220, 0));
    assert_eq!(g.food_pos(), (20, 10));
    assert!(!g.wants_remote_config());
    assert_eq!(g.last_update_us(), 42);
    assert_eq!(g.snake(), &[(10, 15), (9, 15), (8, 15)]);
}

#[test]
fn steering_never_turns_back() {
    let mut g = GameState::new(0);
    g.handle_input(&key_left(), 0);
    assert_eq!(g.next_direction(), Direction::Right);
    g.handle_input(&KeyInput { a: true, ..KeyInput::default() }, 0);
    assert_eq!(g.next_direction(), Direction::Right);
    g.handle_input(&key_up(), 0);
    assert_eq!(g.next_direction(), Direction::Up);
    // Steering sets only the next move; the last one is still to the right,
    // so Down is accepted now.
    g.handle_input(&key_down(), 0);
    assert_eq!(g.next_direction(), Direction::Down);
    assert_eq!(g.update(T), StepOutcome::Moved);
    assert_eq!(g.snake()[0], (10, 16));
    g.handle_input(&key_up(), T);
    assert_eq!(g.next_direction(), Direction::Down);
}

#[test]
fn later_keys_win() {
    let mut g = GameState::new(0);
    g.handle_input(&KeyInput { w: true, s: true, ..KeyInput::default() }, 0);
    assert_eq!(g.next_direction(), Direction::Down);
    let mut g = GameState::new(0);
    g.handle_input(&KeyInput { up: true, d: true, ..KeyInput::default() }, 0);
    assert_eq!(g.next_direction(), Direction::Right);
    let mut g = GameState::new(0);
    g.handle_input(&KeyInput { up: true, down: true, left: true, ..KeyInput::default() }, 0);
    assert_eq!(g.next_direction(), Direction::Down);
}

#[test]
fn remote_config_is_clamped_onto_the_field() {
    let mut g = GameState::new(0);
    g.apply_remote_config(SpriteConfig { x: 419, y: 239, r: 9, g: 8, b: 7 });
    assert_eq!(g.food_pos(), (20, 11));
    assert_eq!(g.food_color(), (9, 8, 7));
    assert!(!g.wants_remote_config());
    g.apply_remote_config(SpriteConfig { x: -5, y: 5_000, r: 0, g: 0, b: 0 });
    assert_eq!(g.food_pos(), (0, 29));
    g.apply_remote_config(SpriteConfig { x: -25, y: -1, r: 0, g: 0, b: 0 });
    assert_eq!(g.food_pos(), (0, 0));
    g.apply_remote_config(SpriteConfig { x: i32::MAX, y: i32::MIN, r: 0, g: 0, b: 0 });
    assert_eq!(g.food_pos(), (39, 0));
    g.apply_remote_config(SpriteConfig { x: 799, y: 599, r: 0, g: 0, b: 0 });
    assert_eq!(g.food_pos(), (39, 29));
}

#[test]
fn default_remote_config() {
    let c = SpriteConfig::default();
    assert_eq!(c, SpriteConfig { x: 400, y: 200, r: 255, g: 200, b: 0 });
    let mut g = GameState::new(0);
    g.apply_remote_config(c);
    assert_eq!(g.food_pos(), (20, 10));
    assert_eq!(g.food_color(), (255, 200, 0));
}

#[test]
fn json_fields_take_defaults_and_low_bits() {
    let c = SpriteConfig::from_json_fields(None, None, None, None, None);
    assert_eq!(c, SpriteConfig::default());
    let c = SpriteConfig::from_json_fields(Some(12), Some(-3), Some(10), Some(0x1_0000_0007), Some(-1));
    assert_eq!(c, SpriteConfig { x: 12, y: -3, r: 10, g: 7, b: -1 });
    let c = SpriteConfig::from_json_fields(None, Some(7), None, Some(300), None);
    assert_eq!(c, SpriteConfig { x: 400, y: 7, r: 255, g: 300, b: 0 });
}

#[test]
fn render_draws_food_body_then_head() {
    let g = game_after_first_meal();
    let plan = g.render();
    assert_eq!(
        plan,
        vec![
            DrawCommand { role: SpriteRole::Food, x: 560, y: 560 },
            DrawCommand { role: SpriteRole::Body, x: 400, y: 220 },
            DrawCommand { role: SpriteRole::Body, x: 400, y: 240 },
            DrawCommand { role: SpriteRole::Body, x: 400, y: 260 },
            DrawCommand { role: SpriteRole::Head, x: 400, y: 200 },
        ]
    );
    let plan = GameState::new(0).render();
    assert_eq!(plan.len(), 4);
    assert_eq!(plan[0], DrawCommand { role: SpriteRole::Food, x: 400, y: 200 });
    assert_eq!(plan[3], DrawCommand { role: SpriteRole::Head, x: 200, y: 300 });
}

#[test]
fn frame_takes_remote_config_once() {
    let mut g = GameState::new(0);
    let first = SpriteConfig { x: 40, y: 40, r: 1, g: 1, b: 1 };
    let second = SpriteConfig { x: 200, y: 200, r: 2, g: 2, b: 2 };
    assert_eq!(g.run_frame(Some(first), &keys_none(), 10), FrameOutcome::Continue(StepOutcome::Idle));
    assert_eq!(g.food_pos(), (2, 2));
    assert_eq!(g.run_frame(Some(second), &keys_none(), 20), FrameOutcome::Continue(StepOutcome::Idle));
    assert_eq!(g.food_pos(), (2, 2));
    assert_eq!(g.food_color(), (1, 1, 1));
}

#[test]
fn frame_reads_keys_then_ticks() {
    let mut g = GameState::new(0);
    assert_eq!(g.run_frame(None, &key_up(), T), FrameOutcome::Continue(StepOutcome::Moved));
    assert_eq!(g.snake()[0], (10, 14));
    assert_eq!(g.direction(), Direction::Up);
}

#[test]
fn escape_quits_before_anything_else() {
    let mut g = GameState::new(0);
    let keys = KeyInput { escape: true, w: true, ..KeyInput::default() };
    let cfg = SpriteConfig { x: 0, y: 0, r: 0, g: 0, b: 0 };
    assert_eq!(g.run_frame(Some(cfg), &keys, T), FrameOutcome::Quit);
    // The configuration that arrived is still taken; the keys and the tick are not.
    assert_eq!(g.food_pos(), (0, 0));
    assert_eq!(g.next_direction(), Direction::Right);
    assert_eq!(g.snake()[0], (10, 15));
}

#[test]
fn restart_in_a_frame_waits_a_full_interval() {
    let mut g = GameState::new(0);
    for _ in 0..30 {
        step(&mut g, &keys_none());
    }
    assert!(g.is_game_over());
    let now = g.last_update_us() + 5 * T;
    let r = KeyInput { r: true, ..KeyInput::default() };
    assert_eq!(g.run_frame(None, &r, now), FrameOutcome::Continue(StepOutcome::Idle));
    assert!(!g.is_game_over());
    assert_eq!(g.run_frame(None, &keys_none(), now + T), FrameOutcome::Continue(StepOutcome::Moved));
    assert_eq!(g.snake()[0], (11, 15));
}

#[test]
fn snake_stays_valid_over_a_long_game() {
    let mut g = GameState::new(0);
    let turns = [key_up(), key_left(), key_down(), key_right()];
    for i in 0..400usize {
        let k = turns[(i / 7) % 4];
        let o = step(&mut g, &k);
        if g.is_game_over() {
            g.handle_input(&KeyInput { r: true, ..KeyInput::default() }, g.last_update_us());
        }
        let s = g.snake();
        assert_eq!(s.len(), g.score() as usize + 3);
        for (j, c) in s.iter().enumerate() {
            assert!(0 <= c.0 && c.0 < GRID_W && 0 <= c.1 && c.1 < GRID_H);
            for d in &s[j + 1..] {
                assert_ne!(c, d);
            }
        }
        let _ = o;
    }
}
