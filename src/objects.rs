use vstd::prelude::*;

verus! {

/// Heading of the snake.
#[derive(Clone, Copy, Debug, PartialEq, Eq, Structural)]
pub enum Direction {
    Up,
    Down,
    Left,
    Right,
}

/// The heading that points the other way.
pub open spec fn opposite_of(d: Direction) -> Direction {
    match d {
        Direction::Up => Direction::Down,
        Direction::Down => Direction::Up,
        Direction::Left => Direction::Right,
        Direction::Right => Direction::Left,
    }
}

impl Direction {
    /// The reverse heading; the snake may never turn onto it.
    pub fn opposite(&self) -> (r: Direction)
        ensures
            r == opposite_of(*self),
    {
        match *self {
            Direction::Up => Direction::Down,
            Direction::Down => Direction::Up,
            Direction::Left => Direction::Right,
            Direction::Right => Direction::Left,
        }
    }
}

/// One cell of the grid.
#[derive(Clone, Copy, Debug, PartialEq, Eq, Structural)]
pub struct Block {
    pub x: i32,
    pub y: i32,
}

/// The cell one step away from `b` in direction `d`, as unbounded integers.
pub open spec fn step_from(b: Block, d: Direction) -> (int, int) {
    match d {
        Direction::Up => (b.x as int, b.y - 1),
        Direction::Down => (b.x as int, b.y + 1),
        Direction::Left => (b.x - 1, b.y as int),
        Direction::Right => (b.x + 1, b.y as int),
    }
}

/// Both coordinates fit in an `i32`.
pub open spec fn fits_i32(p: (int, int)) -> bool {
    i32::MIN <= p.0 <= i32::MAX && i32::MIN <= p.1 <= i32::MAX
}

/// The block at coordinates `p` (which must fit in `i32`).
pub open spec fn block_at(p: (int, int)) -> Block {
    Block { x: p.0 as i32, y: p.1 as i32 }
}

/// `b` occupies one of the cells of `body` other than the last one.
pub open spec fn on_body_but_last(body: Seq<Block>, b: Block) -> bool {
    exists|i: int| 0 <= i < body.len() - 1 && body[i] == b
}

/// The body after one step forward: the new head in front, the last cell gone.
pub open spec fn advanced_body(body: Seq<Block>, d: Direction) -> Seq<Block> {
    seq![block_at(step_from(body[0], d))] + body.drop_last()
}

/// The body with the detached tail appended again, if there is one.
pub open spec fn grown_body(body: Seq<Block>, tail: Option<Block>) -> Seq<Block> {
    match tail {
        Some(b) => body.push(b),
        None => body,
    }
}

/// The snake: its cells from head to tail, its heading, and the cell that the
/// last step left behind (kept so that eating can grow the tail back).
pub struct Snake {
    direction: Direction,
    body: Vec<Block>,
    tail: Option<Block>,
}

impl Snake {
    /// Cells from head to tail.
    pub closed spec fn cells(&self) -> Seq<Block> {
        self.body@
    }

    /// Current heading.
    pub closed spec fn heading(&self) -> Direction {
        self.direction
    }

    /// The cell that the last step left behind, if any.
    pub closed spec fn detached_tail(&self) -> Option<Block> {
        self.tail
    }

    /// A snake always has at least two cells.
    pub open spec fn wf(&self) -> bool {
        self.cells().len() >= 2
    }

    /// The heading a step would take: `dir` when given, else the current one.
    pub open spec fn heading_for(&self, dir: Option<Direction>) -> Direction {
        match dir {
            Some(d) => d,
            None => self.heading(),
        }
    }

    /// Where the head would be after one step with `dir`.
    pub open spec fn next_cell(&self, dir: Option<Direction>) -> (int, int) {
        step_from(self.cells()[0], self.heading_for(dir))
    }

    /// `after` is `before` moved one step forward with `dir`.
    pub open spec fn moved(before: Snake, dir: Option<Direction>, after: Snake) -> bool {
        &&& after.heading() == before.heading_for(dir)
        &&& after.cells() == advanced_body(before.cells(), before.heading_for(dir))
        &&& after.detached_tail() == Some(before.cells().last())
    }

    /// A snake of two cells, head at `(x + 1, y)` and tail at `(x, y)`, heading right.
    pub fn new(x: i32, y: i32) -> (s: Snake)
        requires
            x < i32::MAX,
        ensures
            s.wf(),
            s.cells() == seq![Block { x: (x + 1) as i32, y }, Block { x, y }],
            s.heading() == Direction::Right,
            s.detached_tail() == None::<Block>,
    {
        let mut body: Vec<Block> = Vec::new();
        body.push(Block { x: x + 1, y });
        body.push(Block { x, y });
        Snake { direction: Direction::Right, body, tail: None }
    }

    /// Coordinates of the head.
    pub fn head_position(&self) -> (r: (i32, i32))
        requires
            self.wf(),
        ensures
            r.0 == self.cells()[0].x,
            r.1 == self.cells()[0].y,
    {
        let head = self.body[0];
        (head.x, head.y)
    }

    /// Takes the heading `dir` if one is given, then steps forward: a new head
    /// one cell ahead, and the last cell dropped and kept as the detached tail.
    pub fn move_forward(&mut self, dir: Option<Direction>)
        requires
            old(self).wf(),
            fits_i32(old(self).next_cell(dir)),
        ensures
            final(self).wf(),
            Snake::moved(*old(self), dir, *final(self)),
    {
        match dir {
            Some(d) => self.direction = d,
            None => {},
        }
        let (hx, hy) = self.head_position();
        let new_block = match self.direction {
            Direction::Up => Block { x: hx, y: hy - 1 },
            Direction::Down => Block { x: hx, y: hy + 1 },
            Direction::Left => Block { x: hx - 1, y: hy },
            Direction::Right => Block { x: hx + 1, y: hy },
        };
        self.body.insert(0, new_block);
        let removed = self.body.pop();
        self.tail = removed;
        assert(self.body@ =~= advanced_body(old(self).body@, self.direction));
    }

    /// Current heading.
    pub fn head_direction(&self) -> (r: Direction)
        ensures
            r == self.heading(),
    {
        self.direction
    }

    /// The cell the head would move to with `dir` (or the current heading).
    pub fn next_head(&self, dir: Option<Direction>) -> (r: (i32, i32))
        requires
            self.wf(),
            fits_i32(self.next_cell(dir)),
        ensures
            r.0 == self.next_cell(dir).0,
            r.1 == self.next_cell(dir).1,
    {
        let (hx, hy) = self.head_position();
        let moving = match dir {
            Some(d) => d,
            None => self.direction,
        };
        match moving {
            Direction::Up => (hx, hy - 1),
            Direction::Down => (hx, hy + 1),
            Direction::Left => (hx - 1, hy),
            Direction::Right => (hx + 1, hy),
        }
    }

    /// Appends the detached tail again, growing the snake by one cell; a snake
    /// that has not stepped yet has no detached tail and stays as it is.
    pub fn restore_tail(&mut self)
        requires
            old(self).wf(),
        ensures
            final(self).wf(),
            final(self).cells() == grown_body(old(self).cells(), old(self).detached_tail()),
            final(self).heading() == old(self).heading(),
            final(self).detached_tail() == old(self).detached_tail(),
    {
        match self.tail {
            Some(block) => self.body.push(block),
            None => {},
        }
    }

    /// Whether `(x, y)` is a cell of the snake other than its last one, which
    /// the tail vacates on the same step.
    pub fn overlap_tail(&self, x: i32, y: i32) -> (r: bool)
        requires
            self.wf(),
        ensures
            r == on_body_but_last(self.cells(), Block { x, y }),
    {
        let n = self.body.len() - 1;
        let mut i: usize = 0;
        while i < n
            invariant
                n == self.body@.len() - 1,
                i <= n,
                forall|j: int| 0 <= j < i ==> self.body@[j] != (Block { x, y }),
            decreases n - i,
        {
            if self.body[i].x == x && self.body[i].y == y {
                return true;
            }
            i = i + 1;
        }
        false
    }

    /// Cells from head to tail, as coordinates.
    pub fn cells_xy(&self) -> (r: Vec<(i32, i32)>)
        ensures
            r@.len() == self.cells().len(),
            forall|i: int| 0 <= i < r@.len() ==> r@[i] == (self.cells()[i].x, self.cells()[i].y),
    {
        coordinates(&self.body)
    }
}

/// Number of obstacles that the placement table can hold, the first one included.
pub const MAX_ENEMIES: usize = 10;

/// Where the obstacle added to a gang of `count` obstacles stands; `None`
/// once the table of fixed places is used up.
pub open spec fn enemy_slot(count: int) -> Option<(i32, i32)> {
    if count == 1 {
        Some((20i32, 6i32))
    } else if count == 2 {
        Some((7i32, 12i32))
    } else if count == 3 {
        Some((15i32, 12i32))
    } else if count == 4 {
        Some((22i32, 12i32))
    } else if count == 5 {
        Some((7i32, 18i32))
    } else if count == 6 {
        Some((15i32, 18i32))
    } else if count == 7 {
        Some((22i32, 18i32))
    } else if count == 8 {
        Some((10i32, 24i32))
    } else if count == 9 {
        Some((20i32, 24i32))
    } else {
        None
    }
}

fn next_enemy_slot(count: usize) -> (r: Option<(i32, i32)>)
    ensures
        r == enemy_slot(count as int),
{
    match count {
        1 => Some((20, 6)),
        2 => Some((7, 12)),
        3 => Some((15, 12)),
        4 => Some((22, 12)),
        5 => Some((7, 18)),
        6 => Some((15, 18)),
        7 => Some((22, 18)),
        8 => Some((10, 24)),
        9 => Some((20, 24)),
        _ => None,
    }
}

/// The static obstacles on the board.
pub struct Enemy {
    gang: Vec<Block>,
}

impl Enemy {
    /// The obstacles, in the order they were placed.
    pub closed spec fn obstacles(&self) -> Seq<Block> {
        self.gang@
    }

    /// There is at least one obstacle, and no more than the table can place.
    pub open spec fn wf(&self) -> bool {
        1 <= self.obstacles().len() <= MAX_ENEMIES
    }

    /// The gang with its first obstacle at `(10, 6)`.
    pub fn new() -> (e: Enemy)
        ensures
            e.wf(),
            e.obstacles() == seq![Block { x: 10, y: 6 }],
    {
        let mut gang: Vec<Block> = Vec::new();
        gang.push(Block { x: 10, y: 6 });
        Enemy { gang }
    }

    /// Places one more obstacle at the next fixed place; once all fixed places
    /// are taken, nothing changes.
    pub fn add_enemy(&mut self)
        requires
            old(self).wf(),
        ensures
            final(self).wf(),
            final(self).obstacles() == (match enemy_slot(old(self).obstacles().len() as int) {
                Some(p) => old(self).obstacles().push(Block { x: p.0, y: p.1 }),
                None => old(self).obstacles(),
            }),
    {
        match next_enemy_slot(self.gang.len()) {
            Some((x, y)) => self.gang.push(Block { x, y }),
            None => {},
        }
    }

    /// Whether an obstacle stands at `(x, y)`.
    pub fn contact(&self, x: i32, y: i32) -> (r: bool)
        ensures
            r == self.obstacles().contains(Block { x, y }),
    {
        let mut i: usize = 0;
        while i < self.gang.len()
            invariant
                i <= self.gang@.len(),
                forall|j: int| 0 <= j < i ==> self.gang@[j] != (Block { x, y }),
            decreases self.gang@.len() - i,
        {
            if self.gang[i].x == x && self.gang[i].y == y {
                assert(self.gang@[i as int] == Block { x, y });
                return true;
            }
            i = i + 1;
        }
        false
    }

    /// The obstacles, as coordinates.
    pub fn cells_xy(&self) -> (r: Vec<(i32, i32)>)
        ensures
            r@.len() == self.obstacles().len(),
            forall|i: int| 0 <= i < r@.len() ==> r@[i] == (self.obstacles()[i].x, self.obstacles()[i].y),
    {
        coordinates(&self.gang)
    }
}

/// Rows a paddle may occupy run from `TOP_ROW` to `BOTTOM_ROW`.
pub const TOP_ROW: i32 = 1;
pub const BOTTOM_ROW: i32 = 28;
/// Columns of the two paddles: the board's left and right edges.
pub const LEFT_COLUMN: i32 = 0;
pub const RIGHT_COLUMN: i32 = 29;
/// Number of cells of a paddle.
pub const PADDLE_LEN: usize = 5;

/// A paddle standing in column `col` with its top cell in row `top`.
pub open spec fn paddle_cells(col: i32, top: int) -> Seq<Block> {
    Seq::new(PADDLE_LEN as nat, |i: int| Block { x: col, y: (top + i) as i32 })
}

/// A well-formed paddle body: five contiguous cells of column `col`, inside the rows.
pub open spec fn paddle_ok(body: Seq<Block>, col: i32) -> bool {
    &&& body.len() == PADDLE_LEN
    &&& TOP_ROW <= body[0].y <= BOTTOM_ROW - (PADDLE_LEN - 1)
    &&& body == paddle_cells(col, body[0].y as int)
}

/// A paddle whose top cell is in row `top` has a cell in row `y`.
pub open spec fn paddle_covers(top: int, y: int) -> bool {
    top <= y < top + PADDLE_LEN
}

/// Top row of a paddle after one move up: unchanged at the top row.
pub open spec fn top_after_up(top: int) -> int {
    if top == TOP_ROW {
        top
    } else {
        top - 1
    }
}

/// Top row of a paddle after one move down: unchanged when its last cell is at the bottom row.
pub open spec fn top_after_down(top: int) -> int {
    if top + (PADDLE_LEN - 1) == BOTTOM_ROW {
        top
    } else {
        top + 1
    }
}

fn new_paddle(col: i32) -> (body: Vec<Block>)
    ensures
        paddle_ok(body@, col),
        body@ == paddle_cells(col, TOP_ROW as int),
{
    let mut body: Vec<Block> = Vec::new();
    let mut row: i32 = TOP_ROW;
    while row < TOP_ROW + PADDLE_LEN as i32
        invariant
            TOP_ROW <= row <= TOP_ROW + PADDLE_LEN,
            body@.len() == row - TOP_ROW,
            forall|i: int| 0 <= i < body@.len() ==> body@[i] == (Block { x: col, y: (TOP_ROW + i) as i32 }),
        decreases TOP_ROW + PADDLE_LEN - row,
    {
        body.push(Block { x: col, y: row });
        row = row + 1;
    }
    assert(body@ =~= paddle_cells(col, TOP_ROW as int));
    body
}

fn slide_up(body: &mut Vec<Block>, col: i32)
    requires
        paddle_ok(old(body)@, col),
    ensures
        paddle_ok(final(body)@, col),
        final(body)@ == paddle_cells(col, top_after_up(old(body)@[0].y as int)),
{
    let head = body[0];
    if head.y == TOP_ROW {
        return;
    }
    body.insert(0, Block { x: head.x, y: head.y - 1 });
    let _ = body.pop();
    assert(body@ =~= paddle_cells(col, head.y - 1));
}

fn slide_down(body: &mut Vec<Block>, col: i32)
    requires
        paddle_ok(old(body)@, col),
    ensures
        paddle_ok(final(body)@, col),
        final(body)@ == paddle_cells(col, top_after_down(old(body)@[0].y as int)),
{
    let last = body[body.len() - 1];
    if last.y == BOTTOM_ROW {
        return;
    }
    body.push(Block { x: last.x, y: last.y + 1 });
    let _ = body.remove(0);
    assert(body@ =~= paddle_cells(col, old(body)@[0].y + 1));
}

fn covers_row(body: &Vec<Block>, col: i32, y: i32) -> (r: bool)
    requires
        paddle_ok(body@, col),
    ensures
        r == (body@[0].y <= y < body@[0].y + PADDLE_LEN),
{
    let mut i: usize = 0;
    while i < body.len()
        invariant
            paddle_ok(body@, col),
            i <= body@.len(),
            forall|j: int| 0 <= j < i ==> body@[j].y != y,
        decreases body@.len() - i,
    {
        if body[i].y == y {
            return true;
        }
        i = i + 1;
    }
    assert(!(body@[0].y <= y < body@[0].y + PADDLE_LEN)) by {
        if body@[0].y <= y < body@[0].y + PADDLE_LEN {
            let j = y - body@[0].y;
            assert(body@[j].y == y);
        }
    }
    false
}

/// The paddle on the left edge of the board.
pub struct LeftPedal {
    body: Vec<Block>,
}

impl LeftPedal {
    /// Cells from top to bottom.
    pub closed spec fn cells(&self) -> Seq<Block> {
        self.body@
    }

    /// Row of the top cell.
    pub open spec fn top(&self) -> int {
        self.cells()[0].y as int
    }

    /// Five contiguous cells in the left column, within the rows.
    pub open spec fn wf(&self) -> bool {
        paddle_ok(self.cells(), LEFT_COLUMN)
    }

    /// A paddle at the top of the left edge.
    pub fn new() -> (p: LeftPedal)
        ensures
            p.wf(),
            p.top() == TOP_ROW,
    {
        LeftPedal { body: new_paddle(LEFT_COLUMN) }
    }

    /// Coordinates of the top cell.
    pub fn head_position(&self) -> (r: (i32, i32))
        requires
            self.wf(),
        ensures
            r == (LEFT_COLUMN, self.top() as i32),
    {
        let b = self.body[0];
        (b.x, b.y)
    }

    /// Coordinates of the bottom cell.
    pub fn tail_position(&self) -> (r: (i32, i32))
        requires
            self.wf(),
        ensures
            r == (LEFT_COLUMN, (self.top() + PADDLE_LEN - 1) as i32),
    {
        let b = self.body[self.body.len() - 1];
        (b.x, b.y)
    }

    /// Shifts the paddle one row up, unless it is at the top already.
    pub fn move_up(&mut self)
        requires
            old(self).wf(),
        ensures
            final(self).wf(),
            final(self).top() == top_after_up(old(self).top()),
    {
        slide_up(&mut self.body, LEFT_COLUMN);
    }

    /// Shifts the paddle one row down, unless it is at the bottom already.
    pub fn move_down(&mut self)
        requires
            old(self).wf(),
        ensures
            final(self).wf(),
            final(self).top() == top_after_down(old(self).top()),
    {
        slide_down(&mut self.body, LEFT_COLUMN);
    }

    /// Whether one of the paddle's cells is in row `y`.
    pub fn block_food(&self, y: i32) -> (r: bool)
        requires
            self.wf(),
        ensures
            r == paddle_covers(self.top(), y as int),
    {
        covers_row(&self.body, LEFT_COLUMN, y)
    }

    /// Cells from top to bottom, as coordinates.
    pub fn cells_xy(&self) -> (r: Vec<(i32, i32)>)
        ensures
            r@.len() == self.cells().len(),
            forall|i: int| 0 <= i < r@.len() ==> r@[i] == (self.cells()[i].x, self.cells()[i].y),
    {
        coordinates(&self.body)
    }
}

/// The paddle on the right edge of the board.
pub struct RightPedal {
    body: Vec<Block>,
}

impl RightPedal {
    /// Cells from top to bottom.
    pub closed spec fn cells(&self) -> Seq<Block> {
        self.body@
    }

    /// Row of the top cell.
    pub open spec fn top(&self) -> int {
        self.cells()[0].y as int
    }

    /// Five contiguous cells in the right column, within the rows.
    pub open spec fn wf(&self) -> bool {
        paddle_ok(self.cells(), RIGHT_COLUMN)
    }

    /// A paddle at the top of the right edge.
    pub fn new() -> (p: RightPedal)
        ensures
            p.wf(),
            p.top() == TOP_ROW,
    {
        RightPedal { body: new_paddle(RIGHT_COLUMN) }
    }

    /// Coordinates of the top cell.
    pub fn head_position(&self) -> (r: (i32, i32))
        requires
            self.wf(),
        ensures
            r == (RIGHT_COLUMN, self.top() as i32),
    {
        let b = self.body[0];
        (b.x, b.y)
    }

    /// Coordinates of the bottom cell.
    pub fn tail_position(&self) -> (r: (i32, i32))
        requires
            self.wf(),
        ensures
            r == (RIGHT_COLUMN, (self.top() + PADDLE_LEN - 1) as i32),
    {
        let b = self.body[self.body.len() - 1];
        (b.x, b.y)
    }

    /// Shifts the paddle one row up, unless it is at the top already.
    pub fn move_up(&mut self)
        requires
            old(self).wf(),
        ensures
            final(self).wf(),
            final(self).top() == top_after_up(old(self).top()),
    {
        slide_up(&mut self.body, RIGHT_COLUMN);
    }

    /// Shifts the paddle one row down, unless it is at the bottom already.
    pub fn move_down(&mut self)
        requires
            old(self).wf(),
        ensures
            final(self).wf(),
            final(self).top() == top_after_down(old(self).top()),
    {
        slide_down(&mut self.body, RIGHT_COLUMN);
    }

    /// Whether one of the paddle's cells is in row `y`.
    pub fn block_food(&self, y: i32) -> (r: bool)
        requires
            self.wf(),
        ensures
            r == paddle_covers(self.top(), y as int),
    {
        covers_row(&self.body, RIGHT_COLUMN, y)
    }

    /// Cells from top to bottom, as coordinates.
    pub fn cells_xy(&self) -> (r: Vec<(i32, i32)>)
        ensures
            r@.len() == self.cells().len(),
            forall|i: int| 0 <= i < r@.len() ==> r@[i] == (self.cells()[i].x, self.cells()[i].y),
    {
        coordinates(&self.body)
    }
}

/// The coordinates of each block, in order.
fn coordinates(blocks: &Vec<Block>) -> (r: Vec<(i32, i32)>)
    ensures
        r@.len() == blocks@.len(),
        forall|i: int| 0 <= i < r@.len() ==> r@[i] == (blocks@[i].x, blocks@[i].y),
{
    let mut r: Vec<(i32, i32)> = Vec::new();
    let mut i: usize = 0;
    while i < blocks.len()
        invariant
            i <= blocks@.len(),
            r@.len() == i,
            forall|j: int| 0 <= j < i ==> r@[j] == (blocks@[j].x, blocks@[j].y),
        decreases blocks@.len() - i,
    {
        r.push((blocks[i].x, blocks[i].y));
        i = i + 1;
    }
    r
}

/// A step in any heading but the reverse one moves the head by exactly one cell
/// along exactly one axis, and leaves the length of the snake as it was.
pub proof fn lemma_step_moves_one_cell(before: Snake, d: Direction, after: Snake)
    requires
        before.wf(),
        fits_i32(before.next_cell(Some(d))),
        d != opposite_of(before.heading()),
        Snake::moved(before, Some(d), after),
    ensures
        after.cells().len() == before.cells().len(),
        ({
            let dx = after.cells()[0].x - before.cells()[0].x;
            let dy = after.cells()[0].y - before.cells()[0].y;
            (dx == 0 && (dy == 1 || dy == -1)) || (dy == 0 && (dx == 1 || dx == -1))
        }),
{
}

/// A paddle always has five cells, all in its own column.
pub proof fn lemma_paddles_keep_shape(left: LeftPedal, right: RightPedal)
    requires
        left.wf(),
        right.wf(),
    ensures
        left.cells().len() == PADDLE_LEN,
        forall|i: int| 0 <= i < PADDLE_LEN ==> #[trigger] left.cells()[i].x == LEFT_COLUMN,
        right.cells().len() == PADDLE_LEN,
        forall|i: int| 0 <= i < PADDLE_LEN ==> #[trigger] right.cells()[i].x == RIGHT_COLUMN,
{
}

} // verus!
