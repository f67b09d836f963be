use vstd::prelude::*;
use rand::Rng;

use crate::objects::{
    advanced_body, block_at, enemy_slot, grown_body, on_body_but_last, opposite_of,
    paddle_covers, step_from, top_after_down, top_after_up, Block, Direction, Enemy, LeftPedal,
    RightPedal, Snake, BOTTOM_ROW, LEFT_COLUMN, MAX_ENEMIES, PADDLE_LEN, RIGHT_COLUMN, TOP_ROW,
};

verus! {

/// Time between two regular steps of the snake and the food, in microseconds.
pub const MOVING_PERIOD_US: u64 = 300_000;
/// Time a finished game is shown before a new one starts, in microseconds.
pub const RESTART_TIME_US: u64 = 2_000_000;
/// The score that wins the game.
pub const WIN_SCORE: i32 = 21;
/// New food lands at least this far from the board's edges.
pub const FOOD_MARGIN: i32 = 5;
/// Smallest width and height of a board: the positions a game starts from lie
/// inside the band that the food moves in.
pub const MIN_BOARD: i32 = 13;
/// Draws of a random cell per tick while looking for a free place for new food.
pub const FOOD_DRAWS: u32 = 1000;

/// One key press, as the game understands it.
#[derive(Clone, Copy, Debug, PartialEq, Eq, Structural)]
pub enum Control {
    Up,
    Down,
    Left,
    Right,
    LeftPaddleUp,
    LeftPaddleDown,
    RightPaddleUp,
    RightPaddleDown,
    Other,
}

/// The state of a game as plain values.
pub struct GameView {
    pub snake: Seq<Block>,
    pub heading: Direction,
    pub detached: Option<Block>,
    pub left_top: int,
    pub right_top: int,
    pub enemies: Seq<Block>,
    pub food: (int, int),
    pub velocity: (int, int),
    pub food_exists: bool,
    pub width: int,
    pub height: int,
    pub over: bool,
    pub win: bool,
    pub waited: nat,
    pub score: int,
}

/// What holds of every reachable state.
pub open spec fn game_inv(v: GameView) -> bool {
    &&& MIN_BOARD <= v.width <= i32::MAX
    &&& MIN_BOARD <= v.height <= i32::MAX
    &&& v.snake.len() >= 2
    &&& 1 <= v.snake[0].x <= v.width - 2
    &&& 1 <= v.snake[0].y <= v.height - 2
    &&& TOP_ROW <= v.left_top <= BOTTOM_ROW - (PADDLE_LEN - 1)
    &&& TOP_ROW <= v.right_top <= BOTTOM_ROW - (PADDLE_LEN - 1)
    &&& 1 <= v.enemies.len() <= MAX_ENEMIES
    &&& (v.velocity.0 == 1 || v.velocity.0 == -1)
    &&& (v.velocity.1 == 1 || v.velocity.1 == -1)
    &&& 1 <= v.food.1 <= v.height - 2
    &&& (v.food.1 == 1 ==> v.velocity.1 == 1)
    &&& (v.food.1 == v.height - 2 ==> v.velocity.1 == -1)
    &&& 1 <= v.food.0 <= v.width - 2
    &&& (v.food.0 == 1 && v.velocity.0 == -1 ==> v.over)
    &&& (v.food.0 == v.width - 2 && v.velocity.0 == 1 ==> v.over)
    &&& 0 <= v.score <= WIN_SCORE
    &&& (v.score == WIN_SCORE ==> !v.food_exists)
}

/// The state a new game starts from.
pub open spec fn start_view(width: int, height: int) -> GameView {
    GameView {
        snake: seq![Block { x: 6, y: 5 }, Block { x: 5, y: 5 }],
        heading: Direction::Right,
        detached: None,
        left_top: TOP_ROW as int,
        right_top: TOP_ROW as int,
        enemies: seq![Block { x: 10, y: 6 }],
        food: (3, 3),
        velocity: (1, 1),
        food_exists: true,
        width,
        height,
        over: false,
        win: false,
        waited: 0,
        score: 0,
    }
}

/// The state a game is reset to after it ended.
pub open spec fn restarted_view(width: int, height: int) -> GameView {
    GameView {
        snake: seq![Block { x: 3, y: 2 }, Block { x: 2, y: 2 }],
        food: (10, 10),
        ..start_view(width, height)
    }
}

/// The obstacles after one more is placed (none once the table is used up).
pub open spec fn with_new_enemy(enemies: Seq<Block>) -> Seq<Block> {
    match enemy_slot(enemies.len() as int) {
        Some(p) => enemies.push(Block { x: p.0, y: p.1 }),
        None => enemies,
    }
}

/// The food lies on the snake's head.
pub open spec fn eats(v: GameView) -> bool {
    v.food_exists && v.food == (v.snake[0].x as int, v.snake[0].y as int)
}

/// The state after the snake's head is checked against the food: on a hit the
/// food is gone, the snake grows its tail back, the score goes up by one, and
/// an odd new score places one more obstacle.
pub open spec fn eat_view(v: GameView) -> GameView {
    if eats(v) {
        GameView {
            snake: grown_body(v.snake, v.detached),
            food_exists: false,
            score: v.score + 1,
            enemies: if (v.score + 1) % 2 == 1 {
                with_new_enemy(v.enemies)
            } else {
                v.enemies
            },
            ..v
        }
    } else {
        v
    }
}

/// The heading a step takes: `dir` when given, else the current one.
pub open spec fn heading_of(v: GameView, dir: Option<Direction>) -> Direction {
    match dir {
        Some(d) => d,
        None => v.heading,
    }
}

/// The cell the head would move to.
pub open spec fn next_of(v: GameView, dir: Option<Direction>) -> (int, int) {
    step_from(v.snake[0], heading_of(v, dir))
}

/// The snake may move its head onto `p`: not onto itself (its last cell
/// excepted), not onto an obstacle, and not out of the board's inner part.
pub open spec fn alive_at(v: GameView, p: (int, int)) -> bool {
    &&& !on_body_but_last(v.snake, block_at(p))
    &&& !v.enemies.contains(block_at(p))
    &&& 0 < p.0 < v.width - 1
    &&& 0 < p.1 < v.height - 1
}

/// The state after the snake has stepped forward, before eating is checked.
pub open spec fn move_view(v: GameView, dir: Option<Direction>) -> GameView {
    GameView {
        snake: advanced_body(v.snake, heading_of(v, dir)),
        heading: heading_of(v, dir),
        detached: Some(v.snake.last()),
        ..v
    }
}

/// One step of the snake: it moves and may eat when the next cell is free,
/// else the game is over; the step timer starts again either way.
pub open spec fn step_view(v: GameView, dir: Option<Direction>) -> GameView {
    let stepped = if alive_at(v, next_of(v, dir)) {
        eat_view(move_view(v, dir))
    } else {
        GameView { over: true, ..v }
    };
    GameView { waited: 0, ..stepped }
}

/// One step of the food: it moves by its velocity, turns back vertically in
/// the top and bottom rows of its band, and at either side column turns back if
/// that side's paddle covers a row next to it, else the game is over.
pub open spec fn food_step(v: GameView) -> GameView {
    let x = v.food.0 + v.velocity.0;
    let y = v.food.1 + v.velocity.1;
    let vy = if y <= 1 || y >= v.height - 2 {
        -v.velocity.1
    } else {
        v.velocity.1
    };
    let left_hit = x - 1 == 0;
    let left_ok = paddle_covers(v.left_top, y + 1) || paddle_covers(v.left_top, y - 1);
    let vx1 = if left_hit && left_ok {
        -v.velocity.0
    } else {
        v.velocity.0
    };
    let over1 = v.over || (left_hit && !left_ok);
    let right_hit = x + 2 == v.width;
    let right_ok = paddle_covers(v.right_top, y + 1) || paddle_covers(v.right_top, y - 1);
    let vx2 = if right_hit && right_ok {
        -vx1
    } else {
        vx1
    };
    let over2 = over1 || (right_hit && !right_ok);
    GameView { food: (x, y), velocity: (vx2, vy), over: over2, ..v }
}

/// `p` is a place for new food: inside the margin, and not on the snake (its
/// last cell excepted).
pub open spec fn spawn_ok(v: GameView, p: (int, int)) -> bool {
    &&& FOOD_MARGIN <= p.0 < v.width - FOOD_MARGIN
    &&& FOOD_MARGIN <= p.1 < v.height - FOOD_MARGIN
    &&& !on_body_but_last(v.snake, block_at(p))
}

/// New food is placed when there is none: either at a free place inside the
/// margin, or, if no free place was drawn, not yet.
pub open spec fn respawned(before: GameView, after: GameView) -> bool {
    if before.food_exists {
        after == before
    } else {
        after == before || exists|p: (int, int)|
            spawn_ok(before, p) && after == (GameView { food: p, food_exists: true, ..before })
    }
}

/// The step timer after `delta` more microseconds; it stops at the largest `u64`.
pub open spec fn timer_after(waited: nat, delta: nat) -> nat {
    if waited + delta > u64::MAX {
        u64::MAX as nat
    } else {
        waited + delta
    }
}

/// One call of `update`: the timer runs; a score of `WIN_SCORE` wins; a
/// finished game waits out `RESTART_TIME_US` and then restarts; otherwise
/// missing food is placed, and once `MOVING_PERIOD_US` has passed the snake and
/// then the food take a step.
pub open spec fn updated(v: GameView, delta: nat, after: GameView) -> bool {
    let t = timer_after(v.waited, delta);
    let won = v.win || v.score == WIN_SCORE;
    if v.over || won {
        if t > RESTART_TIME_US {
            after == restarted_view(v.width, v.height)
        } else {
            after == (GameView { waited: t, win: won, ..v })
        }
    } else {
        exists|fed: GameView|
            respawned(GameView { waited: t, ..v }, fed) && after == (if t > MOVING_PERIOD_US {
                food_step(step_view(fed, None))
            } else {
                fed
            })
    }
}

/// One key press; see `Game::key_pressed`.
pub open spec fn key_view(v: GameView, key: Control) -> GameView {
    if v.over {
        v
    } else {
        match key {
            Control::Up => turned(v, Direction::Up),
            Control::Down => turned(v, Direction::Down),
            Control::Left => turned(v, Direction::Left),
            Control::Right => turned(v, Direction::Right),
            Control::LeftPaddleUp => step_view(
                GameView { left_top: top_after_up(v.left_top), ..v },
                Some(v.heading),
            ),
            Control::LeftPaddleDown => step_view(
                GameView { left_top: top_after_down(v.left_top), ..v },
                Some(v.heading),
            ),
            Control::RightPaddleUp => step_view(
                GameView { right_top: top_after_up(v.right_top), ..v },
                Some(v.heading),
            ),
            Control::RightPaddleDown => step_view(
                GameView { right_top: top_after_down(v.right_top), ..v },
                Some(v.heading),
            ),
            Control::Other => v,
        }
    }
}

/// An arrow key: a step with heading `d`, unless `d` reverses the snake.
pub open spec fn turned(v: GameView, d: Direction) -> GameView {
    if d == opposite_of(v.heading) {
        v
    } else {
        step_view(v, Some(d))
    }
}

/// When the head lands on the food, the step itself keeps the snake's length;
/// eating then grows it by exactly one cell, removes the food and adds one to
/// the score.
pub proof fn lemma_eating_grows_by_one(v: GameView, dir: Option<Direction>)
    requires
        game_inv(v),
        alive_at(v, next_of(v, dir)),
        v.food_exists,
        v.food == next_of(v, dir),
    ensures
        move_view(v, dir).snake.len() == v.snake.len(),
        eats(move_view(v, dir)),
        step_view(v, dir).snake.len() == v.snake.len() + 1,
        step_view(v, dir).score == v.score + 1,
        !step_view(v, dir).food_exists,
{
    let m = move_view(v, dir);
    let p = next_of(v, dir);
    assert(m.snake[0].x as int == p.0 && m.snake[0].y as int == p.1);
}

/// A game that is neither over nor won becomes won by `update` exactly when
/// its score is `WIN_SCORE` (unless the restart delay has passed too), and
/// never by a key press.
pub proof fn lemma_win_only_at_win_score(v: GameView, delta: nat, after: GameView, key: Control)
    requires
        game_inv(v),
        !v.over,
        !v.win,
        timer_after(v.waited, delta) <= RESTART_TIME_US,
        updated(v, delta, after),
    ensures
        after.win == (v.score == WIN_SCORE),
        !key_view(v, key).win,
{
    if v.score != WIN_SCORE {
        let t = timer_after(v.waited, delta);
        let fed = choose|fed: GameView|
            respawned(GameView { waited: t, ..v }, fed) && after == (if t > MOVING_PERIOD_US {
                food_step(step_view(fed, None))
            } else {
                fed
            });
        assert(!fed.win);
    }
}

/// The obstacles never become fewer in a step of the snake, nor on a key
/// press; in a step they grow by
/// exactly one when the step makes the score odd, and stay as they are
/// otherwise (as long as the table of places is not used up).
pub proof fn lemma_enemies_grow_on_odd_scores(v: GameView, dir: Option<Direction>, key: Control)
    requires
        game_inv(v),
    ensures
        step_view(v, dir).enemies.len() >= v.enemies.len(),
        key_view(v, key).enemies.len() >= v.enemies.len(),
        ({
            let a = step_view(v, dir);
            v.enemies.len() < MAX_ENEMIES ==> (if a.score == v.score + 1 && a.score % 2 == 1 {
                a.enemies.len() == v.enemies.len() + 1
            } else {
                a.enemies == v.enemies
            })
        }),
{
}

/// The food stays in rows `1` to `height - 2` and in columns `0` to
/// `width - 1` in every reachable state.
pub proof fn lemma_food_on_board(g: Game)
    requires
        g.wf(),
    ensures
        1 <= g@.food.1 <= g@.height - 2,
        0 <= g@.food.0 <= g@.width - 1,
{
}

/// The game's state.
pub struct Game {
    snake: Snake,
    l_pedal: LeftPedal,
    r_pedal: RightPedal,
    enemy: Enemy,
    food_exists: bool,
    food_x: i32,
    food_y: i32,
    food_speed_x: i32,
    food_speed_y: i32,
    width: i32,
    height: i32,
    game_over: bool,
    game_win: bool,
    waiting_time: u64,
    score: i32,
}

impl View for Game {
    type V = GameView;

    closed spec fn view(&self) -> GameView {
        GameView {
            snake: self.snake.cells(),
            heading: self.snake.heading(),
            detached: self.snake.detached_tail(),
            left_top: self.l_pedal.top(),
            right_top: self.r_pedal.top(),
            enemies: self.enemy.obstacles(),
            food: (self.food_x as int, self.food_y as int),
            velocity: (self.food_speed_x as int, self.food_speed_y as int),
            food_exists: self.food_exists,
            width: self.width as int,
            height: self.height as int,
            over: self.game_over,
            win: self.game_win,
            waited: self.waiting_time as nat,
            score: self.score as int,
        }
    }
}

impl Game {
    /// The parts are well formed on their own.
    pub closed spec fn parts_wf(&self) -> bool {
        self.snake.wf() && self.l_pedal.wf() && self.r_pedal.wf() && self.enemy.wf()
    }

    pub open spec fn wf(&self) -> bool {
        self.parts_wf() && game_inv(self@)
    }

    /// A new game on a board of `width` by `height` cells.
    pub fn new(width: i32, height: i32) -> (g: Game)
        requires
            MIN_BOARD <= width,
            MIN_BOARD <= height,
        ensures
            g.wf(),
            g@ == start_view(width as int, height as int),
    {
        Game {
            snake: Snake::new(5, 5),
            l_pedal: LeftPedal::new(),
            r_pedal: RightPedal::new(),
            enemy: Enemy::new(),
            waiting_time: 0,
            food_exists: true,
            food_x: 3,
            food_y: 3,
            food_speed_x: 1,
            food_speed_y: 1,
            width,
            height,
            game_over: false,
            game_win: false,
            score: 0,
        }
    }

    /// Checks whether the snake's head is on the food, and if so eats it.
    pub fn check_eating(&mut self) -> (r: bool)
        requires
            old(self).wf(),
        ensures
            final(self).wf(),
            r == eats(old(self)@),
            final(self)@ == eat_view(old(self)@),
    {
        let (hx, hy) = self.snake.head_position();
        if self.food_exists && self.food_x == hx && self.food_y == hy {
            self.food_exists = false;
            self.snake.restore_tail();
            self.score = self.score + 1;
            if self.score % 2 == 1 {
                self.enemy.add_enemy();
            }
            return true;
        }
        false
    }

    /// Resets every part of the game to where a new round starts.
    fn restart(&mut self)
        requires
            old(self).wf(),
        ensures
            final(self).wf(),
            final(self)@ == restarted_view(old(self)@.width, old(self)@.height),
    {
        self.snake = Snake::new(2, 2);
        self.l_pedal = LeftPedal::new();
        self.r_pedal = RightPedal::new();
        self.enemy = Enemy::new();
        self.waiting_time = 0;
        self.food_exists = true;
        self.food_x = 10;
        self.food_y = 10;
        self.food_speed_x = 1;
        self.food_speed_y = 1;
        self.game_over = false;
        self.game_win = false;
        self.score = 0;
    }

    /// Whether the snake survives a step with `dir`.
    fn check_if_snake_alive(&self, dir: Option<Direction>) -> (r: bool)
        requires
            self.wf(),
        ensures
            r == alive_at(self@, next_of(self@, dir)),
    {
        let (nx, ny) = self.snake.next_head(dir);
        proof {
            assert(block_at((nx as int, ny as int)) == Block { x: nx, y: ny });
        }
        if self.snake.overlap_tail(nx, ny) || self.enemy.contact(nx, ny) {
            return false;
        }
        nx > 0 && ny > 0 && nx < self.width - 1 && ny < self.height - 1
    }

    /// One step of the snake with `dir` (or its current heading).
    fn update_snake(&mut self, dir: Option<Direction>)
        requires
            old(self).wf(),
        ensures
            final(self).wf(),
            final(self)@ == step_view(old(self)@, dir),
    {
        if self.check_if_snake_alive(dir) {
            self.snake.move_forward(dir);
            self.check_eating();
        } else {
            self.game_over = true;
        }
        self.waiting_time = 0;
    }

    /// Puts the food at `(x, y)` with velocity `(vx, vy)`.
    pub fn set_food(&mut self, x: i32, y: i32, vx: i32, vy: i32)
        requires
            old(self).wf(),
            game_inv(
                GameView {
                    food: (x as int, y as int),
                    velocity: (vx as int, vy as int),
                    food_exists: true,
                    ..old(self)@
                },
            ),
        ensures
            final(self).wf(),
            final(self)@ == (GameView {
                food: (x as int, y as int),
                velocity: (vx as int, vy as int),
                food_exists: true,
                ..old(self)@
            }),
    {
        self.food_x = x;
        self.food_y = y;
        self.food_speed_x = vx;
        self.food_speed_y = vy;
        self.food_exists = true;
    }

    /// One step of the food.
    pub fn food_moving(&mut self)
        requires
            old(self).wf(),
            old(self)@.food.0 == 1 ==> old(self)@.velocity.0 == 1,
            old(self)@.food.0 == old(self)@.width - 2 ==> old(self)@.velocity.0 == -1,
        ensures
            final(self).wf(),
            final(self)@ == food_step(old(self)@),
    {
        self.food_x = self.food_x + self.food_speed_x;
        self.food_y = self.food_y + self.food_speed_y;
        if self.food_y <= 1 || self.food_y >= self.height - 2 {
            self.food_speed_y = -self.food_speed_y;
        }
        if self.food_x - 1 == 0 {
            if self.l_pedal.block_food(self.food_y + 1) || self.l_pedal.block_food(self.food_y - 1) {
                self.food_speed_x = -self.food_speed_x;
            } else {
                self.game_over = true;
            }
        }
        if self.food_x + 2 == self.width {
            if self.r_pedal.block_food(self.food_y + 1) || self.r_pedal.block_food(self.food_y - 1) {
                self.food_speed_x = -self.food_speed_x;
            } else {
                self.game_over = true;
            }
        }
    }

    /// Puts the food at `(x, y)` unless that cell is on the snake (its last cell
    /// excepted); says whether it did.
    pub fn place_food(&mut self, x: i32, y: i32) -> (r: bool)
        requires
            old(self).wf(),
            old(self)@.score < WIN_SCORE,
            FOOD_MARGIN <= x < old(self)@.width - FOOD_MARGIN,
            FOOD_MARGIN <= y < old(self)@.height - FOOD_MARGIN,
        ensures
            final(self).wf(),
            r == spawn_ok(old(self)@, (x as int, y as int)),
            final(self)@ == (if r {
                GameView { food: (x as int, y as int), food_exists: true, ..old(self)@ }
            } else {
                old(self)@
            }),
    {
        proof {
            assert(block_at((x as int, y as int)) == Block { x, y });
        }
        if self.snake.overlap_tail(x, y) {
            return false;
        }
        self.food_x = x;
        self.food_y = y;
        self.food_exists = true;
        true
    }

    /// Draws random cells inside the margin until one is free of the snake and
    /// puts the food there; after `FOOD_DRAWS` taken cells the food stays away
    /// until the next tick.
    fn add_food(&mut self)
        requires
            old(self).wf(),
            old(self)@.score < WIN_SCORE,
        ensures
            final(self).wf(),
            final(self)@ == old(self)@ || (exists|p: (int, int)|
                spawn_ok(old(self)@, p) && final(self)@ == (GameView {
                    food: p,
                    food_exists: true,
                    ..old(self)@
                })),
    {
        let mut draws: u32 = 0;
        while draws < FOOD_DRAWS
            invariant
                self.wf(),
                self@ == old(self)@,
                self@.score < WIN_SCORE,
            decreases FOOD_DRAWS - draws,
        {
            let x = random_in(FOOD_MARGIN, self.width - FOOD_MARGIN);
            let y = random_in(FOOD_MARGIN, self.height - FOOD_MARGIN);
            if self.place_food(x, y) {
                assert(spawn_ok(old(self)@, (x as int, y as int)));
                return;
            }
            draws = draws + 1;
        }
    }

    /// Advances the game by `delta_us` microseconds of real time.
    pub fn update(&mut self, delta_us: u64)
        requires
            old(self).wf(),
        ensures
            final(self).wf(),
            updated(old(self)@, delta_us as nat, final(self)@),
    {
        if delta_us > u64::MAX - self.waiting_time {
            self.waiting_time = u64::MAX;
        } else {
            self.waiting_time = self.waiting_time + delta_us;
        }
        if self.score == WIN_SCORE {
            self.game_win = true;
        }
        if self.game_over || self.game_win {
            if self.waiting_time > RESTART_TIME_US {
                self.restart();
            }
            return;
        }
        let ghost timed = self@;
        if !self.food_exists {
            self.add_food();
        }
        let ghost fed = self@;
        assert(respawned(timed, fed));
        if self.waiting_time > MOVING_PERIOD_US {
            self.update_snake(None);
            self.food_moving();
        }
    }

    /// Handles one key press: arrows turn the snake and step it at once
    /// (a turn onto the reverse heading is dropped), the paddle keys move a
    /// paddle and step the snake on its heading; other keys, and any key once
    /// the game is over, do nothing.
    pub fn key_pressed(&mut self, key: Control)
        requires
            old(self).wf(),
        ensures
            final(self).wf(),
            final(self)@ == key_view(old(self)@, key),
    {
        if self.game_over {
            return;
        }
        let dir = match key {
            Control::Up => Direction::Up,
            Control::Down => Direction::Down,
            Control::Left => Direction::Left,
            Control::Right => Direction::Right,
            Control::Other => {
                return;
            },
            _ => self.snake.head_direction(),
        };
        match key {
            Control::LeftPaddleUp => self.l_pedal.move_up(),
            Control::LeftPaddleDown => self.l_pedal.move_down(),
            Control::RightPaddleUp => self.r_pedal.move_up(),
            Control::RightPaddleDown => self.r_pedal.move_down(),
            _ => {},
        }
        if dir == self.snake.head_direction().opposite() {
            return;
        }
        self.update_snake(Some(dir));
    }

    /// The score.
    pub fn score(&self) -> (r: i32)
        ensures
            r == self@.score,
    {
        self.score
    }

    /// Whether the game is lost.
    pub fn game_over(&self) -> (r: bool)
        ensures
            r == self@.over,
    {
        self.game_over
    }

    /// Whether the game is won.
    pub fn game_win(&self) -> (r: bool)
        ensures
            r == self@.win,
    {
        self.game_win
    }

    /// Width of the board.
    pub fn width(&self) -> (r: i32)
        ensures
            r == self@.width,
    {
        self.width
    }

    /// Height of the board.
    pub fn height(&self) -> (r: i32)
        ensures
            r == self@.height,
    {
        self.height
    }

    /// The food's cell, if there is food.
    pub fn food(&self) -> (r: Option<(i32, i32)>)
        ensures
            r == (if self@.food_exists {
                Some((self@.food.0 as i32, self@.food.1 as i32))
            } else {
                None
            }),
    {
        if self.food_exists {
            Some((self.food_x, self.food_y))
        } else {
            None
        }
    }

    /// The snake's cells from head to tail.
    pub fn snake_cells(&self) -> (r: Vec<(i32, i32)>)
        ensures
            r@.len() == self@.snake.len(),
            forall|i: int| 0 <= i < r@.len() ==> r@[i] == (self@.snake[i].x, self@.snake[i].y),
    {
        self.snake.cells_xy()
    }

    /// The snake's heading.
    pub fn snake_heading(&self) -> (r: Direction)
        ensures
            r == self@.heading,
    {
        self.snake.head_direction()
    }

    /// The left paddle's cells from top to bottom.
    pub fn left_pedal_cells(&self) -> (r: Vec<(i32, i32)>)
        requires
            self.wf(),
        ensures
            r@.len() == PADDLE_LEN,
            forall|i: int| 0 <= i < r@.len() ==> r@[i] == (LEFT_COLUMN, (self@.left_top + i) as i32),
    {
        self.l_pedal.cells_xy()
    }

    /// The right paddle's cells from top to bottom.
    pub fn right_pedal_cells(&self) -> (r: Vec<(i32, i32)>)
        requires
            self.wf(),
        ensures
            r@.len() == PADDLE_LEN,
            forall|i: int| 0 <= i < r@.len() ==> r@[i] == (RIGHT_COLUMN, (self@.right_top + i) as i32),
    {
        self.r_pedal.cells_xy()
    }

    /// The obstacles' cells.
    pub fn enemy_cells(&self) -> (r: Vec<(i32, i32)>)
        ensures
            r@.len() == self@.enemies.len(),
            forall|i: int| 0 <= i < r@.len() ==> r@[i] == (self@.enemies[i].x, self@.enemies[i].y),
    {
        self.enemy.cells_xy()
    }
}

/// Relies on rand 0.7's `thread_rng().gen_range(low, high)`: a value drawn
/// from `low` up to, not including, `high`; it panics when `low >= high`.
#[verifier::external_body]
fn random_in(low: i32, high: i32) -> (r: i32)
    requires
        low < high,
    ensures
        low <= r < high,
{
    rand::thread_rng().gen_range(low, high)
}

} // verus!
