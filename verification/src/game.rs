//! The game's state and its rules: moving, growing, dying, steering,
//! restarting, taking the remote food configuration, and what a frame draws.

use vstd::prelude::*;

use crate::grid::{
    adjacent, in_grid, lemma_distinct_cells_fit_grid, opposite, step_cell, Cell, Direction,
    CELL_SIZE, GRID_H, GRID_W, MOVE_INTERVAL_US,
};
use crate::remote::SpriteConfig;

verus! {

/// Colour of the food sprite before any remote configuration, and after a restart.
pub open spec fn default_food_color() -> (i32, i32, i32) {
    (255, 220, 0)
}

/// The snake a game starts with: head first, heading right.
pub open spec fn initial_snake() -> Seq<Cell> {
    seq![(10i32, 15i32), (9i32, 15i32), (8i32, 15i32)]
}

/// The food cell a game starts with.
pub open spec fn initial_food() -> Cell {
    (20i32, 10i32)
}

/// The abstract state of a game.
pub struct GameView {
    /// The cells of the snake, head first.
    pub snake: Seq<Cell>,
    /// The direction of the last move.
    pub dir: Direction,
    /// The direction the next move takes.
    pub next_dir: Direction,
    pub food_pos: Cell,
    pub food_color: (i32, i32, i32),
    /// Time of the last move (or of the start), in microseconds.
    pub last_update_us: u64,
    pub game_over: bool,
    pub score: u32,
    /// Whether a remote food configuration has been taken.
    pub collectible_loaded: bool,
}

/// What a game holds right after it starts (or restarts) at time `now_us`.
pub open spec fn initial_view(now_us: u64, collectible_loaded: bool) -> GameView {
    GameView {
        snake: initial_snake(),
        dir: Direction::Right,
        next_dir: Direction::Right,
        food_pos: initial_food(),
        food_color: default_food_color(),
        last_update_us: now_us,
        game_over: false,
        score: 0,
        collectible_loaded,
    }
}

/// The snake's cells lie on the field, are pairwise distinct, and each
/// touches the next.
#[verifier::opaque]
pub open spec fn well_shaped(snake: Seq<Cell>) -> bool {
    &&& forall|i: int| 0 <= i < snake.len() ==> #[trigger] in_grid(snake[i])
    &&& snake.no_duplicates()
    &&& forall|i: int| 0 <= i < snake.len() - 1 ==> adjacent(#[trigger] snake[i], snake[i + 1])
}

/// What every reachable state of a game satisfies.
pub open spec fn valid_view(v: GameView) -> bool {
    &&& well_shaped(v.snake)
    &&& v.snake.len() == v.score + 3
    &&& in_grid(v.food_pos)
    &&& v.next_dir != opposite(v.dir)
    &&& !v.game_over ==> step_cell(v.snake[1], v.dir) == (v.snake[0].0 as int, v.snake[0].1 as int)
}

/// Where the food goes after the `score`-th piece was eaten: a fixed
/// pseudo-random function of the score.
pub open spec fn food_pos_for(score: u32) -> Cell {
    (
        ((score * 1_664_525 + 1_013_904_223) % 40) as i32,
        ((score * 22_695_477 + 1) % 30) as i32,
    )
}

/// Whether enough time has passed since the last move for the next one.
pub open spec fn move_due(last_us: u64, now_us: u64) -> bool {
    now_us >= last_us && now_us - last_us >= MOVE_INTERVAL_US
}

/// What one call of `update` reports.
#[derive(Clone, Copy, PartialEq, Eq, Debug, Structural)]
pub enum StepOutcome {
    /// Nothing happened: the game is over, or the next move is not due yet.
    Idle,
    /// The snake moved one cell.
    Moved,
    /// The snake moved onto the food, grew by one cell and scored.
    Ate,
    /// The snake would have left the field; the game is over.
    HitWall,
    /// The snake would have run into its own body; the game is over.
    HitSelf,
}

/// One tick of the game at time `now_us`, and what it reports.
pub open spec fn advance(v: GameView, now_us: u64) -> (GameView, StepOutcome) {
    if v.game_over || !move_due(v.last_update_us, now_us) {
        (v, StepOutcome::Idle)
    } else {
        let turned = GameView { last_update_us: now_us, dir: v.next_dir, ..v };
        let ahead = step_cell(v.snake[0], v.next_dir);
        let head: Cell = (ahead.0 as i32, ahead.1 as i32);
        if !(0 <= ahead.0 < GRID_W && 0 <= ahead.1 < GRID_H) {
            (GameView { game_over: true, ..turned }, StepOutcome::HitWall)
        } else if v.snake.skip(1).contains(head) {
            (GameView { game_over: true, ..turned }, StepOutcome::HitSelf)
        } else if head == v.food_pos {
            (
                GameView {
                    snake: seq![head] + v.snake,
                    score: (v.score + 1) as u32,
                    food_pos: food_pos_for((v.score + 1) as u32),
                    ..turned
                },
                StepOutcome::Ate,
            )
        } else {
            (GameView { snake: (seq![head] + v.snake).drop_last(), ..turned }, StepOutcome::Moved)
        }
    }
}

/// A game that has just started or restarted is in a valid state.
pub proof fn lemma_initial_valid(now_us: u64, collectible_loaded: bool)
    ensures
        valid_view(initial_view(now_us, collectible_loaded)),
{
    reveal(well_shaped);
    let s = initial_snake();
    assert(s[0] == (10i32, 15i32) && s[1] == (9i32, 15i32) && s[2] == (8i32, 15i32));
}

/// Facts every valid state gives: the snake has at least its three starting
/// cells, no more cells than the field, and its head is on the field.
pub proof fn lemma_valid_bounds(v: GameView)
    requires
        valid_view(v),
    ensures
        3 <= v.snake.len() <= GRID_W * GRID_H,
        in_grid(v.snake[0]),
        v.score + 3 <= GRID_W * GRID_H,
{
    reveal(well_shaped);
    lemma_distinct_cells_fit_grid(v.snake);
}

/// Putting a fresh cell next to the head of a well-shaped snake, where the
/// cell is on the field and not on the body, gives a well-shaped snake.
proof fn lemma_grown_snake(v: GameView, head: Cell)
    requires
        valid_view(v),
        !v.game_over,
        in_grid(head),
        adjacent(head, v.snake[0]),
        !v.snake.skip(1).contains(head),
    ensures
        well_shaped(seq![head] + v.snake),
{
    reveal(well_shaped);
    let grown = seq![head] + v.snake;
    assert forall|i: int| 0 <= i < v.snake.len() implies grown[i + 1] == v.snake[i] by {}
    assert(head != v.snake[0]);
    assert forall|i: int| 1 <= i < v.snake.len() implies v.snake[i] != head by {
        assert(v.snake.skip(1)[i - 1] == v.snake[i]);
    }
    assert forall|i: int, j: int| 0 <= i < grown.len() && 0 <= j < grown.len() && i != j
        implies grown[i] != grown[j] by {
        if i > 0 && j > 0 {
            assert(grown[i] == v.snake[i - 1]);
            assert(grown[j] == v.snake[j - 1]);
        }
    }
    assert forall|i: int| 0 <= i < grown.len() - 1 implies adjacent(#[trigger] grown[i], grown[i + 1]) by {
        if i > 0 {
            assert(adjacent(v.snake[i - 1], v.snake[i]));
        }
    }
    assert forall|i: int| 0 <= i < grown.len() implies #[trigger] in_grid(grown[i]) by {
        if i > 0 {
            assert(in_grid(v.snake[i - 1]));
        }
    }
}

/// Dropping the tail of a well-shaped snake keeps it well-shaped.
proof fn lemma_drop_tail(snake: Seq<Cell>)
    requires
        well_shaped(snake),
        snake.len() > 0,
    ensures
        well_shaped(snake.drop_last()),
{
    reveal(well_shaped);
    let d = snake.drop_last();
    assert forall|i: int| 0 <= i < d.len() implies d[i] == snake[i] by {}
    assert forall|i: int| 0 <= i < d.len() - 1 implies adjacent(#[trigger] d[i], d[i + 1]) by {
        assert(adjacent(snake[i], snake[i + 1]));
    }
    assert forall|i: int| 0 <= i < d.len() implies #[trigger] in_grid(d[i]) by {
        assert(in_grid(snake[i]));
    }
}

/// Every state a game can be in stays one after a tick: the snake stays on
/// the field, never overlaps itself, stays connected, is always three cells
/// longer than the score, the food stays on the field, and the next move
/// never points straight back.
pub proof fn lemma_advance_keeps_valid(v: GameView, now_us: u64)
    requires
        valid_view(v),
    ensures
        valid_view(advance(v, now_us).0),
{
    if !v.game_over && move_due(v.last_update_us, now_us) {
        let ahead = step_cell(v.snake[0], v.next_dir);
        let head: Cell = (ahead.0 as i32, ahead.1 as i32);
        lemma_valid_bounds(v);
        if 0 <= ahead.0 < GRID_W && 0 <= ahead.1 < GRID_H && !v.snake.skip(1).contains(head) {
            assert(adjacent(head, v.snake[0]));
            lemma_grown_snake(v, head);
            let grown = seq![head] + v.snake;
            assert(grown[1] == v.snake[0]);
            if head == v.food_pos {
                reveal(well_shaped);
                lemma_distinct_cells_fit_grid(grown);
                let s = (v.score + 1) as u32;
                assert(in_grid(food_pos_for(s)));
            } else {
                lemma_drop_tail(grown);
                assert(grown.drop_last()[1] == v.snake[0]);
                assert(grown.drop_last()[0] == head);
            }
        }
    }
}

/// Which keys are held down during a frame.
#[derive(Clone, Copy, PartialEq, Eq, Debug, Default)]
pub struct KeyInput {
    pub w: bool,
    pub up: bool,
    pub s: bool,
    pub down: bool,
    pub a: bool,
    pub left: bool,
    pub d: bool,
    pub right: bool,
    pub r: bool,
    pub escape: bool,
}

/// The direction the next move takes after the held keys are read: the
/// keys are read in the order W, Up, S, Down, A, Left, D, Right, each one
/// asking for its direction unless that points straight back against the
/// last move, and the last such request wins; with none, it stays as it was.
pub open spec fn steer(dir: Direction, next_dir: Direction, keys: KeyInput) -> Direction {
    if (keys.d || keys.right) && dir != Direction::Left {
        Direction::Right
    } else if (keys.a || keys.left) && dir != Direction::Right {
        Direction::Left
    } else if (keys.s || keys.down) && dir != Direction::Up {
        Direction::Down
    } else if (keys.w || keys.up) && dir != Direction::Down {
        Direction::Up
    } else {
        next_dir
    }
}

/// The game after the held keys are read at time `now_us`: steering, and a
/// restart where the game is over and R is held.
pub open spec fn after_input(v: GameView, keys: KeyInput, now_us: u64) -> GameView {
    if v.game_over && keys.r {
        initial_view(now_us, v.collectible_loaded)
    } else {
        GameView { next_dir: steer(v.dir, v.next_dir, keys), ..v }
    }
}

/// `v` limited to the range `lo..=hi`.
pub open spec fn clamp(v: int, lo: int, hi: int) -> int {
    if v < lo {
        lo
    } else if v > hi {
        hi
    } else {
        v
    }
}

/// Integer division rounding toward zero, for a positive divisor.
pub open spec fn div_toward_zero(a: int, b: int) -> int {
    if a >= 0 {
        a / b
    } else {
        -((-a) / b)
    }
}

/// The cell under pixel `(x, y)`, pulled onto the field where it lies outside.
pub open spec fn cell_at_pixel(x: i32, y: i32) -> Cell {
    (
        clamp(div_toward_zero(x as int, CELL_SIZE as int), 0, GRID_W - 1) as i32,
        clamp(div_toward_zero(y as int, CELL_SIZE as int), 0, GRID_H - 1) as i32,
    )
}

/// The game after it takes a remote food configuration: the food moves to
/// the configured spot and takes the configured colour.
pub open spec fn with_remote_config(v: GameView, cfg: SpriteConfig) -> GameView {
    GameView {
        food_pos: cell_at_pixel(cfg.x, cfg.y),
        food_color: (cfg.r, cfg.g, cfg.b),
        collectible_loaded: true,
        ..v
    }
}

/// `v` limited to the range `lo..=hi`.
fn clamp_i32(v: i32, lo: i32, hi: i32) -> (r: i32)
    requires
        lo <= hi,
    ensures
        r == clamp(v as int, lo as int, hi as int),
{
    if v < lo {
        lo
    } else if v > hi {
        hi
    } else {
        v
    }
}

/// The three sprites a frame draws.
#[derive(Clone, Copy, PartialEq, Eq, Debug, Structural)]
pub enum SpriteRole {
    Food,
    Body,
    Head,
}

/// One sprite drawn at a pixel position (its top-left corner).
#[derive(Clone, Copy, PartialEq, Eq, Debug, Structural)]
pub struct DrawCommand {
    pub role: SpriteRole,
    pub x: i32,
    pub y: i32,
}

/// A sprite drawn over the cell `c`.
pub open spec fn draw_at(role: SpriteRole, c: Cell) -> DrawCommand {
    DrawCommand { role, x: (c.0 * CELL_SIZE) as i32, y: (c.1 * CELL_SIZE) as i32 }
}

/// What a frame draws, in order: the food, each body cell from the neck to
/// the tail, and the head last, on top.
pub open spec fn frame_drawing(v: GameView) -> Seq<DrawCommand> {
    seq![draw_at(SpriteRole::Food, v.food_pos)]
        + v.snake.skip(1).map_values(|c: Cell| draw_at(SpriteRole::Body, c))
        + seq![draw_at(SpriteRole::Head, v.snake[0])]
}

/// What one frame of the game loop asks of the program around it.
#[derive(Clone, Copy, PartialEq, Eq, Debug, Structural)]
pub enum FrameOutcome {
    /// Escape is held: leave the loop.
    Quit,
    /// Go on, after a tick that reported this.
    Continue(StepOutcome),
}

/// One frame of the game loop at time `now_us`: take the remote food
/// configuration if one arrived and none was taken before, stop if Escape
/// is held, and otherwise read the keys and tick.
pub open spec fn frame_step(
    v: GameView,
    remote: Option<SpriteConfig>,
    keys: KeyInput,
    now_us: u64,
) -> (GameView, FrameOutcome) {
    let v1 = match remote {
        Some(cfg) => if v.collectible_loaded { v } else { with_remote_config(v, cfg) },
        None => v,
    };
    if keys.escape {
        (v1, FrameOutcome::Quit)
    } else {
        let (v2, outcome) = advance(after_input(v1, keys, now_us), now_us);
        (v2, FrameOutcome::Continue(outcome))
    }
}

/// State of a running game.
pub struct GameState {
    snake: Vec<Cell>,
    dir: Direction,
    next_dir: Direction,
    food_pos: Cell,
    food_color: (i32, i32, i32),
    last_update_us: u64,
    game_over: bool,
    score: u32,
    collectible_loaded: bool,
}

impl View for GameState {
    type V = GameView;

    closed spec fn view(&self) -> GameView {
        GameView {
            snake: self.snake@,
            dir: self.dir,
            next_dir: self.next_dir,
            food_pos: self.food_pos,
            food_color: self.food_color,
            last_update_us: self.last_update_us,
            game_over: self.game_over,
            score: self.score,
            collectible_loaded: self.collectible_loaded,
        }
    }
}

fn initial_snake_vec() -> (v: Vec<Cell>)
    ensures
        v@ == initial_snake(),
{
    let mut v: Vec<Cell> = Vec::new();
    v.push((10, 15));
    v.push((9, 15));
    v.push((8, 15));
    v
}

impl GameState {
    /// Whether this state is one a game can be in.
    pub open spec fn wf(&self) -> bool {
        valid_view(self@)
    }

    /// Starts a game at time `now_us`: a three-cell snake heading right,
    /// food at its starting cell, no remote configuration taken yet.
    pub fn new(now_us: u64) -> (s: GameState)
        ensures
            s@ == initial_view(now_us, false),
            s.wf(),
    {
        proof {
            lemma_initial_valid(now_us, false);
        }
        GameState {
            snake: initial_snake_vec(),
            dir: Direction::Right,
            next_dir: Direction::Right,
            food_pos: (20, 10),
            food_color: (255, 220, 0),
            last_update_us: now_us,
            game_over: false,
            score: 0,
            collectible_loaded: false,
        }
    }

    /// The food cell that follows the current score.
    pub fn next_food_pos(&self) -> (c: Cell)
        ensures
            c == food_pos_for(self@.score),
            in_grid(c),
    {
        let a = self.score as u64;
        proof {
            assert(a * 1_664_525 < 0x1_0000_0000_0000_0000);
            assert(a * 22_695_477 < 0x1_0000_0000_0000_0000);
            vstd::arithmetic::div_mod::lemma_small_mod((a * 1_664_525) as nat, 0x1_0000_0000_0000_0000nat);
            vstd::arithmetic::div_mod::lemma_small_mod((a * 22_695_477) as nat, 0x1_0000_0000_0000_0000nat);
        }
        let x = (a.wrapping_mul(1_664_525).wrapping_add(1_013_904_223) % (GRID_W as u64)) as i32;
        let y = (a.wrapping_mul(22_695_477).wrapping_add(1) % (GRID_H as u64)) as i32;
        (x, y)
    }

    /// Starts over at time `now_us`, as `new` does, keeping only whether a
    /// remote configuration was already taken; the food's colour goes back
    /// to its default.
    pub fn reset(&mut self, now_us: u64)
        ensures
            final(self)@ == initial_view(now_us, old(self)@.collectible_loaded),
            final(self).wf(),
    {
        self.snake = initial_snake_vec();
        self.dir = Direction::Right;
        self.next_dir = Direction::Right;
        self.food_pos = (20, 10);
        self.game_over = false;
        self.score = 0;
        self.last_update_us = now_us;
        self.food_color = (255, 220, 0);
        proof {
            lemma_initial_valid(now_us, self.collectible_loaded);
        }
    }
    /// Whether `cell` is one of the snake's cells other than its head.
    fn body_contains(&self, cell: Cell) -> (found: bool)
        requires
            self@.snake.len() >= 1,
        ensures
            found == self@.snake.skip(1).contains(cell),
    {
        let n = self.snake.len();
        let mut i: usize = 1;
        while i < n
            invariant
                1 <= i <= n,
                n == self.snake@.len(),
                forall|j: int| 1 <= j < i ==> self.snake@[j] != cell,
            decreases n - i,
        {
            let c = self.snake[i];
            if c.0 == cell.0 && c.1 == cell.1 {
                proof {
                    assert(self@.snake.skip(1)[i - 1] == cell);
                }
                return true;
            }
            i = i + 1;
        }
        proof {
            if self@.snake.skip(1).contains(cell) {
                let k = choose|k: int| 0 <= k < self@.snake.skip(1).len() && self@.snake.skip(1)[k] == cell;
                assert(self.snake@[k + 1] == cell);
            }
        }
        false
    }

    /// Moves the snake one cell if a move is due at `now_us` and the game is
    /// not over: in the direction last steered, onto the food (growing by one
    /// cell, scoring, and placing new food) or onto an empty cell; leaving the
    /// field or running into its own body ends the game instead.
    pub fn update(&mut self, now_us: u64) -> (outcome: StepOutcome)
        requires
            old(self).wf(),
        ensures
            final(self).wf(),
            (final(self)@, outcome) == advance(old(self)@, now_us),
    {
        if self.game_over {
            return StepOutcome::Idle;
        }
        if now_us < self.last_update_us || now_us - self.last_update_us < MOVE_INTERVAL_US {
            return StepOutcome::Idle;
        }
        let ghost v = self@;
        self.last_update_us = now_us;
        self.dir = self.next_dir;
        let (hx, hy) = self.snake[0];
        proof {
            lemma_valid_bounds(v);
        }
        let new_head: Cell = match self.dir {
            Direction::Up => (hx, hy - 1),
            Direction::Down => (hx, hy + 1),
            Direction::Left => (hx - 1, hy),
            Direction::Right => (hx + 1, hy),
        };
        if new_head.0 < 0 || new_head.0 >= GRID_W || new_head.1 < 0 || new_head.1 >= GRID_H {
            self.game_over = true;
            return StepOutcome::HitWall;
        }
        if self.body_contains(new_head) {
            self.game_over = true;
            return StepOutcome::HitSelf;
        }
        self.snake.insert(0, new_head);
        proof {
            assert(self.snake@ =~= seq![new_head] + v.snake);
            lemma_advance_keeps_valid(v, now_us);
        }
        if new_head.0 == self.food_pos.0 && new_head.1 == self.food_pos.1 {
            proof {
                lemma_valid_bounds(advance(v, now_us).0);
            }
            self.score = self.score + 1;
            self.food_pos = self.next_food_pos();
            StepOutcome::Ate
        } else {
            self.snake.pop();
            proof {
                assert(self.snake@ =~= (seq![new_head] + v.snake).drop_last());
            }
            StepOutcome::Moved
        }
    }
    /// Takes a remote food configuration: moves the food to the cell under
    /// the configured pixel (pulled onto the field) and gives it the
    /// configured colour.
    pub fn apply_remote_config(&mut self, cfg: SpriteConfig)
        requires
            old(self).wf(),
        ensures
            final(self).wf(),
            final(self)@ == with_remote_config(old(self)@, cfg),
    {
        let gx = clamp_i32(cfg.x / CELL_SIZE, 0, GRID_W - 1);
        let gy = clamp_i32(cfg.y / CELL_SIZE, 0, GRID_H - 1);
        self.food_pos = (gx, gy);
        self.food_color = (cfg.r, cfg.g, cfg.b);
        self.collectible_loaded = true;
    }

    /// Reads the keys held at time `now_us`: steers the next move (never
    /// straight back against the last one), and restarts a game that is
    /// over when R is held.
    pub fn handle_input(&mut self, keys: &KeyInput, now_us: u64)
        requires
            old(self).wf(),
        ensures
            final(self).wf(),
            final(self)@ == after_input(old(self)@, *keys, now_us),
    {
        if keys.w {
            if self.dir != Direction::Down {
                self.next_dir = Direction::Up;
            }
        }
        if keys.up {
            if self.dir != Direction::Down {
                self.next_dir = Direction::Up;
            }
        }
        if keys.s {
            if self.dir != Direction::Up {
                self.next_dir = Direction::Down;
            }
        }
        if keys.down {
            if self.dir != Direction::Up {
                self.next_dir = Direction::Down;
            }
        }
        if keys.a {
            if self.dir != Direction::Right {
                self.next_dir = Direction::Left;
            }
        }
        if keys.left {
            if self.dir != Direction::Right {
                self.next_dir = Direction::Left;
            }
        }
        if keys.d {
            if self.dir != Direction::Left {
                self.next_dir = Direction::Right;
            }
        }
        if keys.right {
            if self.dir != Direction::Left {
                self.next_dir = Direction::Right;
            }
        }
        if self.game_over {
            if keys.r {
                self.reset(now_us);
            }
        }
    }
    /// The sprites this frame draws, in drawing order: the food, the body
    /// from neck to tail, then the head.
    pub fn render(&self) -> (plan: Vec<DrawCommand>)
        requires
            self.wf(),
        ensures
            plan@ == frame_drawing(self@),
    {
        proof {
            lemma_valid_bounds(self@);
            reveal(well_shaped);
        }
        let mut plan: Vec<DrawCommand> = Vec::new();
        plan.push(
            DrawCommand {
                role: SpriteRole::Food,
                x: self.food_pos.0 * CELL_SIZE,
                y: self.food_pos.1 * CELL_SIZE,
            },
        );
        let n = self.snake.len();
        let mut i: usize = 1;
        while i < n
            invariant
                1 <= i <= n,
                n == self@.snake.len(),
                well_shaped(self@.snake),
                plan@ == seq![draw_at(SpriteRole::Food, self@.food_pos)] + self@.snake.subrange(
                    1,
                    i as int,
                ).map_values(|c: Cell| draw_at(SpriteRole::Body, c)),
            decreases n - i,
        {
            let c = self.snake[i];
            proof {
                reveal(well_shaped);
                assert(in_grid(self@.snake[i as int]));
            }
            plan.push(DrawCommand { role: SpriteRole::Body, x: c.0 * CELL_SIZE, y: c.1 * CELL_SIZE });
            proof {
                assert(self@.snake.subrange(1, i + 1) =~= self@.snake.subrange(1, i as int).push(c));
            }
            i = i + 1;
        }
        let h = self.snake[0];
        plan.push(DrawCommand { role: SpriteRole::Head, x: h.0 * CELL_SIZE, y: h.1 * CELL_SIZE });
        proof {
            assert(self@.snake.subrange(1, n as int) =~= self@.snake.skip(1));
        }
        plan
    }

    /// Whether the game still takes a remote food configuration.
    pub fn wants_remote_config(&self) -> (wants: bool)
        ensures
            wants == !self@.collectible_loaded,
    {
        !self.collectible_loaded
    }

    /// Runs one frame of the game loop at time `now_us` with the keys held
    /// and, where one arrived, a remote food configuration.
    pub fn run_frame(&mut self, remote: Option<SpriteConfig>, keys: &KeyInput, now_us: u64) -> (outcome: FrameOutcome)
        requires
            old(self).wf(),
        ensures
            final(self).wf(),
            (final(self)@, outcome) == frame_step(old(self)@, remote, *keys, now_us),
    {
        if !self.collectible_loaded {
            if let Some(cfg) = remote {
                self.apply_remote_config(cfg);
            }
        }
        if keys.escape {
            return FrameOutcome::Quit;
        }
        self.handle_input(keys, now_us);
        let outcome = self.update(now_us);
        FrameOutcome::Continue(outcome)
    }

    /// The snake's cells, head first.
    pub fn snake(&self) -> (cells: &[Cell])
        ensures
            cells@ == self@.snake,
    {
        self.snake.as_slice()
    }

    /// The direction of the last move.
    pub fn direction(&self) -> (d: Direction)
        ensures
            d == self@.dir,
    {
        self.dir
    }

    /// The direction the next move takes.
    pub fn next_direction(&self) -> (d: Direction)
        ensures
            d == self@.next_dir,
    {
        self.next_dir
    }

    pub fn food_pos(&self) -> (c: Cell)
        ensures
            c == self@.food_pos,
    {
        self.food_pos
    }

    pub fn food_color(&self) -> (c: (i32, i32, i32))
        ensures
            c == self@.food_color,
    {
        self.food_color
    }

    pub fn score(&self) -> (n: u32)
        ensures
            n == self@.score,
    {
        self.score
    }

    pub fn is_game_over(&self) -> (over: bool)
        ensures
            over == self@.game_over,
    {
        self.game_over
    }

    /// Time of the last move (or of the start), in microseconds.
    pub fn last_update_us(&self) -> (t: u64)
        ensures
            t == self@.last_update_us,
    {
        self.last_update_us
    }
}

} // verus!
