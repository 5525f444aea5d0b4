//! Properties of the game that span several calls or every state.

use vstd::prelude::*;

use crate::game::{
    advance, after_input, cell_at_pixel, frame_drawing, frame_step, initial_view,
    lemma_advance_keeps_valid, lemma_initial_valid, lemma_valid_bounds, move_due, steer,
    valid_view, with_remote_config, DrawCommand, FrameOutcome, GameView, KeyInput, SpriteRole,
    StepOutcome,
};
use crate::grid::{opposite, step_cell, Direction, MOVE_INTERVAL_US};
use crate::remote::SpriteConfig;

verus! {

/// Once the game is over, ticking changes nothing and reports nothing.
pub proof fn lemma_game_over_is_final(v: GameView, now_us: u64)
    requires
        v.game_over,
    ensures
        advance(v, now_us) == (v, StepOutcome::Idle),
{
}

/// Only a restart leaves a game that is over: reading keys without R keeps
/// it over and keeps the snake where it died.
pub proof fn lemma_only_restart_revives(v: GameView, keys: KeyInput, now_us: u64)
    requires
        v.game_over,
        !keys.r,
    ensures
        after_input(v, keys, now_us).game_over,
        after_input(v, keys, now_us).snake == v.snake,
{
}

/// Holding R in a game that is over gives exactly a new game started at
/// that time (remembering only whether the remote food was taken).
pub proof fn lemma_restart_is_new_game(v: GameView, keys: KeyInput, now_us: u64)
    requires
        v.game_over,
        keys.r,
    ensures
        after_input(v, keys, now_us) == initial_view(now_us, v.collectible_loaded),
{
}

/// Steering never turns the next move straight back against the last one.
pub proof fn lemma_steer_never_reverses(dir: Direction, next_dir: Direction, keys: KeyInput)
    requires
        next_dir != opposite(dir),
    ensures
        steer(dir, next_dir, keys) != opposite(dir),
{
}

/// In a running game the next move never goes onto the cell right behind
/// the head.
pub proof fn lemma_never_onto_neck(v: GameView)
    requires
        valid_view(v),
        !v.game_over,
    ensures
        step_cell(v.snake[0], v.next_dir) != (v.snake[1].0 as int, v.snake[1].1 as int),
{
    lemma_valid_bounds(v);
}

/// A tick lengthens the snake and raises the score by one exactly when it
/// eats, and otherwise leaves both as they were.
pub proof fn lemma_growth_only_by_eating(v: GameView, now_us: u64)
    requires
        valid_view(v),
    ensures
        ({
            let (w, outcome) = advance(v, now_us);
            &&& w.snake.len() == v.snake.len() + (if outcome == StepOutcome::Ate { 1int } else { 0 })
            &&& w.score == v.score + (if outcome == StepOutcome::Ate { 1int } else { 0 })
        }),
{
    lemma_valid_bounds(v);
}

/// Two ticks that both act are at least the move interval apart.
pub proof fn lemma_moves_are_spaced(v: GameView, first_us: u64, second_us: u64)
    requires
        advance(v, first_us).1 != StepOutcome::Idle,
        advance(advance(v, first_us).0, second_us).1 != StepOutcome::Idle,
    ensures
        second_us >= first_us + MOVE_INTERVAL_US,
{
}

/// Once a remote food configuration was taken, any later one is ignored.
pub proof fn lemma_remote_config_taken_once(
    v: GameView,
    cfg: SpriteConfig,
    keys: KeyInput,
    now_us: u64,
)
    requires
        v.collectible_loaded,
    ensures
        frame_step(v, Some(cfg), keys, now_us) == frame_step(v, None, keys, now_us),
{
}

/// Holding Escape ends the loop before keys are read or the game ticks.
pub proof fn lemma_escape_quits(v: GameView, keys: KeyInput, now_us: u64)
    requires
        keys.escape,
    ensures
        frame_step(v, None, keys, now_us) == (v, FrameOutcome::Quit),
{
}

/// Every frame keeps the game in a valid state: whatever keys are held,
/// whatever remote configuration arrives and whenever the frame runs, the
/// snake stays on the field, never overlaps itself, stays connected and
/// three cells longer than the score, and the food stays on the field.
pub proof fn lemma_frame_keeps_valid(
    v: GameView,
    remote: Option<SpriteConfig>,
    keys: KeyInput,
    now_us: u64,
)
    requires
        valid_view(v),
    ensures
        valid_view(frame_step(v, remote, keys, now_us).0),
{
    let v1 = match remote {
        Some(cfg) => if v.collectible_loaded { v } else { with_remote_config(v, cfg) },
        None => v,
    };
    assert(valid_view(v1));
    if !keys.escape {
        if v1.game_over && keys.r {
            lemma_initial_valid(now_us, v1.collectible_loaded);
        }
        lemma_advance_keeps_valid(after_input(v1, keys, now_us), now_us);
    }
}

/// Holding no key at all.
pub open spec fn no_keys() -> KeyInput {
    KeyInput {
        w: false,
        up: false,
        s: false,
        down: false,
        a: false,
        left: false,
        d: false,
        right: false,
        r: false,
        escape: false,
    }
}

/// A due tick of a running game leaves the field exactly when the cell
/// ahead of the head lies outside the 40 x 30 field; it runs into the body
/// exactly when that cell is on the field and is a body cell; and every
/// other cell ahead is moved onto (plainly or eating), the game going on
/// with the head there.
pub proof fn lemma_tick_moves_onto_every_free_cell(v: GameView, now_us: u64)
    requires
        valid_view(v),
        !v.game_over,
        now_us >= v.last_update_us + MOVE_INTERVAL_US,
    ensures
        ({
            let h = step_cell(v.snake[0], v.next_dir);
            let on_field = 0 <= h.0 < 40 && 0 <= h.1 < 30;
            let cell: (i32, i32) = (h.0 as i32, h.1 as i32);
            let (w, outcome) = advance(v, now_us);
            &&& (outcome == StepOutcome::HitWall) <==> !on_field
            &&& (outcome == StepOutcome::HitSelf) <==> (on_field && v.snake.skip(1).contains(cell))
            &&& (on_field && !v.snake.skip(1).contains(cell)) ==> {
                &&& outcome == StepOutcome::Moved || outcome == StepOutcome::Ate
                &&& !w.game_over
                &&& w.snake[0] == cell
                &&& w.snake[1] == v.snake[0]
            }
        }),
{
    assert(move_due(v.last_update_us, now_us));
    lemma_valid_bounds(v);
}

/// Each key held alone steers its way unless that points straight back:
/// W and Up turn up, S and Down turn down, A and Left turn left, D and Right
/// turn right.
pub proof fn lemma_each_key_steers(v: GameView, now_us: u64)
    requires
        !v.game_over,
    ensures
        v.dir != Direction::Down ==> after_input(v, KeyInput { w: true, ..no_keys() }, now_us).next_dir == Direction::Up,
        v.dir != Direction::Down ==> after_input(v, KeyInput { up: true, ..no_keys() }, now_us).next_dir == Direction::Up,
        v.dir != Direction::Up ==> after_input(v, KeyInput { s: true, ..no_keys() }, now_us).next_dir == Direction::Down,
        v.dir != Direction::Up ==> after_input(v, KeyInput { down: true, ..no_keys() }, now_us).next_dir == Direction::Down,
        v.dir != Direction::Right ==> after_input(v, KeyInput { a: true, ..no_keys() }, now_us).next_dir == Direction::Left,
        v.dir != Direction::Right ==> after_input(v, KeyInput { left: true, ..no_keys() }, now_us).next_dir == Direction::Left,
        v.dir != Direction::Left ==> after_input(v, KeyInput { d: true, ..no_keys() }, now_us).next_dir == Direction::Right,
        v.dir != Direction::Left ==> after_input(v, KeyInput { right: true, ..no_keys() }, now_us).next_dir == Direction::Right,
        v.dir == Direction::Down ==> after_input(v, KeyInput { w: true, up: true, ..no_keys() }, now_us) == v,
        v.dir == Direction::Up ==> after_input(v, KeyInput { s: true, down: true, ..no_keys() }, now_us) == v,
        v.dir == Direction::Right ==> after_input(v, KeyInput { a: true, left: true, ..no_keys() }, now_us) == v,
        v.dir == Direction::Left ==> after_input(v, KeyInput { d: true, right: true, ..no_keys() }, now_us) == v,
        after_input(v, no_keys(), now_us) == v,
        after_input(v, KeyInput { r: true, ..no_keys() }, now_us) == v,
{
}

/// The letter keys and the arrow keys steer alike, whatever else is held
/// and whatever state the game is in.
pub proof fn lemma_letters_and_arrows_agree(v: GameView, keys: KeyInput, now_us: u64)
    ensures
        after_input(v, KeyInput { w: true, ..keys }, now_us) == after_input(v, KeyInput { up: true, ..keys }, now_us),
        after_input(v, KeyInput { s: true, ..keys }, now_us) == after_input(v, KeyInput { down: true, ..keys }, now_us),
        after_input(v, KeyInput { a: true, ..keys }, now_us) == after_input(v, KeyInput { left: true, ..keys }, now_us),
        after_input(v, KeyInput { d: true, ..keys }, now_us) == after_input(v, KeyInput { right: true, ..keys }, now_us),
{
}

/// Every frame draws one sprite more than the snake has cells: the food
/// first, at the food cell, and the head last, on top, at the head cell,
/// whether or not the game is over.
pub proof fn lemma_every_frame_draws_food_and_head(v: GameView)
    requires
        valid_view(v),
    ensures
        frame_drawing(v).len() == v.snake.len() + 1,
        frame_drawing(v)[0] == (DrawCommand {
            role: SpriteRole::Food,
            x: (v.food_pos.0 * 20) as i32,
            y: (v.food_pos.1 * 20) as i32,
        }),
        frame_drawing(v)[v.snake.len() as int] == (DrawCommand {
            role: SpriteRole::Head,
            x: (v.snake[0].0 * 20) as i32,
            y: (v.snake[0].1 * 20) as i32,
        }),
        forall|i: int| 1 <= i < v.snake.len() ==> #[trigger] frame_drawing(v)[i] == (DrawCommand {
            role: SpriteRole::Body,
            x: (v.snake[i].0 * 20) as i32,
            y: (v.snake[i].1 * 20) as i32,
        }),
{
    lemma_valid_bounds(v);
}

/// A restarted game is running: the starting three-cell snake heading
/// right, score zero, food at (20, 10) in its default colour, whatever
/// remote configuration was taken before; its first due tick moves the
/// snake one cell to the right.
pub proof fn lemma_restart_runs_again(now_us: u64, collectible_loaded: bool)
    requires
        now_us <= u64::MAX - MOVE_INTERVAL_US,
    ensures
        ({
            let v = initial_view(now_us, collectible_loaded);
            &&& !v.game_over
            &&& v.snake == seq![(10i32, 15i32), (9i32, 15i32), (8i32, 15i32)]
            &&& v.dir == Direction::Right
            &&& v.next_dir == Direction::Right
            &&& v.score == 0
            &&& v.food_pos == (20i32, 10i32)
            &&& v.food_color == (255i32, 220i32, 0i32)
            &&& v.last_update_us == now_us
            &&& v.collectible_loaded == collectible_loaded
            &&& advance(v, (now_us + MOVE_INTERVAL_US) as u64).1 == StepOutcome::Moved
            &&& advance(v, (now_us + MOVE_INTERVAL_US) as u64).0.snake
                == seq![(11i32, 15i32), (10i32, 15i32), (9i32, 15i32)]
        }),
{
    let v = initial_view(now_us, collectible_loaded);
    lemma_initial_valid(now_us, collectible_loaded);
    let w = advance(v, (now_us + MOVE_INTERVAL_US) as u64).0;
    assert(v.snake.skip(1) =~= seq![(9i32, 15i32), (8i32, 15i32)]);
    assert(w.snake =~= seq![(11i32, 15i32), (10i32, 15i32), (9i32, 15i32)]);
}

/// The cell taken from a pixel on the field is the cell that contains it,
/// column and row each.
pub proof fn lemma_pixel_cell_contains_pixel(x: i32, y: i32)
    ensures
        0 <= x < 800 ==> cell_at_pixel(x, y).0 * 20 <= x < cell_at_pixel(x, y).0 * 20 + 20,
        0 <= y < 600 ==> cell_at_pixel(x, y).1 * 20 <= y < cell_at_pixel(x, y).1 * 20 + 20,
{
}

/// A frame handed a remote configuration while none was taken takes it,
/// running game or not: the game marks it taken, and unless the frame
/// restarts the game, the food wears its colour and (unless a tick eats it
/// in the same frame) sits in the cell under its pixel.
pub proof fn lemma_frame_takes_first_remote_config(
    v: GameView,
    cfg: SpriteConfig,
    keys: KeyInput,
    now_us: u64,
)
    requires
        valid_view(v),
        !v.collectible_loaded,
    ensures
        ({
            let (w, outcome) = frame_step(v, Some(cfg), keys, now_us);
            let restarted = !keys.escape && v.game_over && keys.r;
            &&& w.collectible_loaded
            &&& !restarted ==> w.food_color == (cfg.r, cfg.g, cfg.b)
            &&& (!restarted && outcome != FrameOutcome::Continue(StepOutcome::Ate))
                ==> w.food_pos == cell_at_pixel(cfg.x, cfg.y)
            &&& v.game_over ==> w.food_pos == cell_at_pixel(cfg.x, cfg.y) || restarted
        }),
{
}

/// A running game moves exactly when a tick comes at least the move
/// interval after the last move (a clock that went back moves nothing); a
/// move records the tick's time and makes the steered direction the last
/// move's.
pub proof fn lemma_tick_timing(v: GameView, now_us: u64)
    requires
        valid_view(v),
        !v.game_over,
    ensures
        ({
            let (w, outcome) = advance(v, now_us);
            &&& (outcome == StepOutcome::Idle) <==> (now_us < v.last_update_us || now_us - v.last_update_us < 120_000)
            &&& outcome == StepOutcome::Idle ==> w == v
            &&& outcome != StepOutcome::Idle ==> w.last_update_us == now_us && w.dir == v.next_dir
                && w.next_dir == v.next_dir
        }),
{
}

/// A due tick onto a free cell eats exactly when that cell holds the food:
/// eating puts the head there in front of the whole old snake, raises the
/// score by one and puts the food at
/// ((score * 1664525 + 1013904223) mod 40, (score * 22695477 + 1) mod 30)
/// for the new score; a plain move puts the head there and drops the tail,
/// keeping score, food and its colour.
pub proof fn lemma_tick_eats_or_slides(v: GameView, now_us: u64)
    requires
        valid_view(v),
        !v.game_over,
        now_us >= v.last_update_us + MOVE_INTERVAL_US,
        ({
            let h = step_cell(v.snake[0], v.next_dir);
            0 <= h.0 < 40 && 0 <= h.1 < 30 && !v.snake.skip(1).contains((h.0 as i32, h.1 as i32))
        }),
    ensures
        ({
            let h = step_cell(v.snake[0], v.next_dir);
            let cell: (i32, i32) = (h.0 as i32, h.1 as i32);
            let (w, outcome) = advance(v, now_us);
            &&& (outcome == StepOutcome::Ate) <==> cell == v.food_pos
            &&& (outcome == StepOutcome::Moved) <==> cell != v.food_pos
            &&& w.food_color == v.food_color
            &&& outcome == StepOutcome::Ate ==> {
                &&& w.score == v.score + 1
                &&& w.snake.len() == v.snake.len() + 1
                &&& w.snake[0] == cell
                &&& (forall|i: int| 0 <= i < v.snake.len() ==> w.snake[i + 1] == v.snake[i])
                &&& w.food_pos.0 == (w.score * 1_664_525 + 1_013_904_223) % 40
                &&& w.food_pos.1 == (w.score * 22_695_477 + 1) % 30
            }
            &&& outcome == StepOutcome::Moved ==> {
                &&& w.score == v.score
                &&& w.food_pos == v.food_pos
                &&& w.snake.len() == v.snake.len()
                &&& w.snake[0] == cell
                &&& (forall|i: int| 0 <= i < v.snake.len() - 1 ==> w.snake[i + 1] == v.snake[i])
            }
        }),
{
    assert(move_due(v.last_update_us, now_us));
    lemma_valid_bounds(v);
}

/// Pixels left of or above the field give the first column or row, pixels
/// right of or below it the last one.
pub proof fn lemma_pixel_cell_outside_field(x: i32, y: i32)
    ensures
        x < 0 ==> cell_at_pixel(x, y).0 == 0,
        x >= 800 ==> cell_at_pixel(x, y).0 == 39,
        y < 0 ==> cell_at_pixel(x, y).1 == 0,
        y >= 600 ==> cell_at_pixel(x, y).1 == 29,
{
}

/// Taking a remote configuration moves the food to the cell under its pixel,
/// gives it the configuration's colour, marks it taken, and leaves the
/// snake, score, directions and clock as they were.
pub proof fn lemma_remote_config_sets_food(v: GameView, cfg: SpriteConfig)
    ensures
        ({
            let w = with_remote_config(v, cfg);
            &&& w.food_pos == cell_at_pixel(cfg.x, cfg.y)
            &&& w.food_color == (cfg.r, cfg.g, cfg.b)
            &&& w.collectible_loaded
            &&& w.snake == v.snake && w.score == v.score && w.dir == v.dir && w.next_dir == v.next_dir
            &&& w.game_over == v.game_over && w.last_update_us == v.last_update_us
        }),
{
}

} // verus!
