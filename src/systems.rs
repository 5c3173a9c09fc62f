//! The per-tick rules of the game, over an explicitly owned game state.

use rand::Rng;
use vstd::prelude::*;

use crate::component::{
    can_step, opposite_of, start_position, step, Direction, Food, LastTailPosition, Position,
    SnakeBody, SnakeHead, SnakeState,
};

verus! {

/// Width of the arena in cells.
pub const ARENA_WIDTH: u32 = 10;

/// Height of the arena in cells.
pub const ARENA_HEIGHT: u32 = 10;

/// Where the body segment of a new snake starts: one cell below the head.
pub open spec fn start_body_position() -> Position {
    Position { x: 3, y: 2 }
}

/// The bounds of the arena.
#[derive(Clone, Copy, Debug, PartialEq, Eq, Structural)]
pub struct Grid {
    pub width: u32,
    pub height: u32,
}

/// Whether cell `p` lies inside an arena of `w` by `h` cells.
pub open spec fn in_arena(p: Position, w: u32, h: u32) -> bool {
    0 <= p.x < w && 0 <= p.y < h
}

impl Grid {
    /// Whether the arena is one a cell can be drawn in at random.
    pub open spec fn wf(&self) -> bool {
        0 < self.width <= i32::MAX && 0 < self.height <= i32::MAX
    }

    /// The arena of the game as it is played.
    pub fn new() -> (r: Self)
        ensures
            r.width == ARENA_WIDTH,
            r.height == ARENA_HEIGHT,
            r.wf(),
    {
        Grid { width: ARENA_WIDTH, height: ARENA_HEIGHT }
    }

    pub fn contains(&self, p: Position) -> (r: bool)
        ensures
            r == in_arena(p, self.width, self.height),
    {
        p.x >= 0 && p.y >= 0 && (p.x as u32) < self.width && (p.y as u32) < self.height
    }
}

/// Everything that exists in a game: the arena, the snake and its heading,
/// the food, the tail cell of the last move, and the next free identifier.
#[derive(Clone, Debug)]
pub struct Game {
    pub grid: Grid,
    pub head: SnakeHead,
    pub snake: SnakeState,
    pub food: Vec<Food>,
    pub last_tail: LastTailPosition,
    pub next_id: u64,
}

impl Game {
    /// The segments of the snake, head first.
    pub open spec fn segments(&self) -> Seq<SnakeBody> {
        self.snake.0@
    }

    /// The arena is well formed, and every identifier in use was handed out
    /// before `next_id`, so the next one handed out is fresh.
    pub open spec fn wf(&self) -> bool {
        &&& self.grid.wf()
        &&& forall|i: int| 0 <= i < self.snake.0@.len() ==> #[trigger] self.snake.0@[i].id < self.next_id
        &&& forall|i: int| 0 <= i < self.food@.len() ==> #[trigger] self.food@[i].id < self.next_id
    }

    /// A game with nothing in it yet: no snake, no food.
    pub fn new() -> (r: Self)
        ensures
            r.wf(),
            r.grid.width == ARENA_WIDTH,
            r.grid.height == ARENA_HEIGHT,
            r.segments().len() == 0,
            r.food@.len() == 0,
            r.head.direction == Direction::Up,
            r.last_tail.0.is_none(),
            r.next_id == 0,
    {
        Game {
            grid: Grid::new(),
            head: SnakeHead::default(),
            snake: SnakeState(Vec::new()),
            food: Vec::new(),
            last_tail: LastTailPosition(None),
            next_id: 0,
        }
    }
}

/// Hands out a fresh identifier for a segment at `position`; the caller
/// places it in the snake.
pub fn spawn_snake_body(game: &mut Game, position: Position) -> (r: SnakeBody)
    requires
        old(game).wf(),
        old(game).next_id < u64::MAX,
    ensures
        r == (SnakeBody { id: old(game).next_id, position }),
        *final(game) == (Game { next_id: (old(game).next_id + 1) as u64, ..*old(game) }),
        final(game).wf(),
{
    let id = game.next_id;
    game.next_id = id + 1;
    SnakeBody { id, position }
}

/// Makes a new snake: its head at the start cell heading up, and one body
/// segment below it. The segments it had before are dropped.
pub fn spawn_snake(game: &mut Game)
    requires
        old(game).wf(),
        old(game).next_id < u64::MAX - 1,
    ensures
        final(game).wf(),
        final(game).segments() == seq![
            (SnakeBody { id: old(game).next_id, position: start_position() }),
            (SnakeBody { id: (old(game).next_id + 1) as u64, position: start_body_position() }),
        ],
        final(game).head.direction == Direction::Up,
        final(game).next_id == old(game).next_id + 2,
        final(game).food == old(game).food,
        final(game).grid == old(game).grid,
        final(game).last_tail == old(game).last_tail,
{
    let head = spawn_snake_body(game, Position::default());
    let body = spawn_snake_body(game, Position { x: 3, y: 2 });
    game.head = SnakeHead::default();
    game.snake = SnakeState(vec![head, body]);
}

/// Adds a new segment at `position` after the tail, and returns it.
pub fn append_segment(game: &mut Game, position: Position) -> (r: SnakeBody)
    requires
        old(game).wf(),
        old(game).next_id < u64::MAX,
    ensures
        final(game).wf(),
        r == (SnakeBody { id: old(game).next_id, position }),
        final(game).segments() == old(game).segments().push(r),
        *final(game) == (Game {
            snake: final(game).snake,
            next_id: (old(game).next_id + 1) as u64,
            ..*old(game)
        }),
{
    let seg = spawn_snake_body(game, position);
    game.snake.0.push(seg);
    seg
}

/// The food of `s` whose identifier is not `id`, in order.
pub open spec fn food_without(s: Seq<Food>, id: u64) -> Seq<Food>
    decreases s.len(),
{
    if s.len() == 0 {
        s
    } else {
        let rest = food_without(s.drop_last(), id);
        if s.last().id == id {
            rest
        } else {
            rest.push(s.last())
        }
    }
}

/// Removes the food with identifier `id`; there may be none, as when it was
/// eaten already.
pub fn despawn_food(game: &mut Game, id: u64)
    requires
        old(game).wf(),
    ensures
        final(game).wf(),
        final(game).food@ == food_without(old(game).food@, id),
        *final(game) == (Game { food: final(game).food, ..*old(game) }),
{
    let mut kept: Vec<Food> = Vec::new();
    let mut i: usize = 0;
    while i < game.food.len()
        invariant
            0 <= i <= game.food@.len(),
            *game == *old(game),
            game.wf(),
            kept@ == food_without(game.food@.subrange(0, i as int), id),
            forall|k: int| 0 <= k < kept@.len() ==> #[trigger] kept@[k].id < game.next_id,
        decreases game.food@.len() - i,
    {
        let f = game.food[i];
        proof {
            assert(game.food@.subrange(0, i + 1).drop_last() =~= game.food@.subrange(0, i as int));
            assert(game.food@[i as int].id < game.next_id);
        }
        if f.id != id {
            kept.push(f);
        }
        i += 1;
    }
    proof {
        assert(game.food@.subrange(0, game.food@.len() as int) =~= game.food@);
    }
    game.food = kept;
}

/// Removes every segment of the snake and every piece of food.
pub fn despawn_all_bodies_and_food(game: &mut Game)
    requires
        old(game).wf(),
    ensures
        final(game).wf(),
        final(game).segments().len() == 0,
        final(game).food@.len() == 0,
        *final(game) == (Game { snake: final(game).snake, food: final(game).food, ..*old(game) }),
{
    game.snake = SnakeState(Vec::new());
    game.food = Vec::new();
}

/// What a movement step did.
#[derive(Clone, Copy, Debug, PartialEq, Eq, Structural)]
pub enum Movement {
    /// There is no snake: nothing moved.
    NoHead,
    /// The snake moved and its head is still inside the arena.
    Moved,
    /// The snake moved and its head left the arena: the game is over.
    OutOfBounds,
}

/// Moves the snake one cell along its heading. The head steps to the next
/// cell; every other segment takes the cell that the segment ahead of it
/// held before this step. The tail's cell before the step is recorded for
/// growth. Nothing happens when there is no snake.
pub fn snake_movement(game: &mut Game) -> (r: Movement)
    requires
        old(game).wf(),
        old(game).segments().len() > 0 ==> can_step(
            old(game).segments()[0].position,
            old(game).head.direction,
        ),
    ensures
        final(game).wf(),
        old(game).segments().len() == 0 ==> r == Movement::NoHead && *final(game) == *old(game),
        old(game).segments().len() > 0 ==> {
            let before = old(game).segments();
            let after = final(game).segments();
            &&& after.len() == before.len()
            &&& forall|i: int| 0 <= i < after.len() ==> #[trigger] after[i].id == before[i].id
            &&& after[0].position == step(before[0].position, old(game).head.direction)
            &&& forall|i: int|
                1 <= i < after.len() ==> #[trigger] after[i].position == before[i - 1].position
            &&& final(game).last_tail.0 == Some(before.last().position)
            &&& r == if in_arena(after[0].position, old(game).grid.width, old(game).grid.height) {
                Movement::Moved
            } else {
                Movement::OutOfBounds
            }
            &&& *final(game) == (Game {
                snake: final(game).snake,
                last_tail: final(game).last_tail,
                ..*old(game)
            })
        },
{
    let n = game.snake.0.len();
    if n == 0 {
        return Movement::NoHead;
    }
    let mut before: Vec<Position> = Vec::new();
    let mut i: usize = 0;
    while i < n
        invariant
            0 <= i <= n,
            n == game.snake.0@.len(),
            *game == *old(game),
            before@.len() == i,
            forall|k: int| 0 <= k < i ==> before@[k] == #[trigger] game.snake.0@[k].position,
        decreases n - i,
    {
        before.push(game.snake.0[i].position);
        i += 1;
    }
    game.last_tail = LastTailPosition(Some(before[n - 1]));
    let head = before[0];
    let moved = match game.head.direction {
        Direction::Up => Position { x: head.x, y: head.y + 1 },
        Direction::Down => Position { x: head.x, y: head.y - 1 },
        Direction::Left => Position { x: head.x - 1, y: head.y },
        Direction::Right => Position { x: head.x + 1, y: head.y },
    };
    let mut first = game.snake.0[0];
    first.position = moved;
    game.snake.0.set(0, first);
    let mut j: usize = 1;
    while j < n
        invariant
            1 <= j <= n,
            n == game.snake.0@.len(),
            n == old(game).segments().len(),
            before@.len() == n,
            forall|k: int| 0 <= k < n ==> before@[k] == #[trigger] old(game).segments()[k].position,
            forall|k: int| 0 <= k < n ==> #[trigger] game.snake.0@[k].id == old(game).segments()[k].id,
            game.snake.0@[0].position == moved,
            moved == step(old(game).segments()[0].position, old(game).head.direction),
            forall|k: int| 1 <= k < j ==> #[trigger] game.snake.0@[k].position == before@[k - 1],
            game.last_tail.0 == Some(before@[n - 1]),
            game.grid == old(game).grid,
            game.head == old(game).head,
            game.food == old(game).food,
            game.next_id == old(game).next_id,
        decreases n - j,
    {
        let mut seg = game.snake.0[j];
        seg.position = before[j - 1];
        game.snake.0.set(j, seg);
        j += 1;
    }
    if game.grid.contains(moved) {
        Movement::Moved
    } else {
        Movement::OutOfBounds
    }
}

/// Takes a requested heading. A request for the reverse of the current
/// heading is ignored, as is no request at all; any other request becomes
/// the heading.
pub fn snake_movement_input(game: &mut Game, intent: Option<Direction>)
    ensures
        intent == Some(opposite_of(old(game).head.direction)) ==> *final(game) == *old(game),
        intent.is_none() ==> *final(game) == *old(game),
        forall|d: Direction|
            intent == Some(d) && d != opposite_of(old(game).head.direction) ==> *final(game) == (
            Game { head: SnakeHead { direction: d }, ..*old(game) }),
{
    if let Some(dir) = intent {
        if dir != game.head.direction.opposite() {
            game.head = SnakeHead { direction: dir };
        }
    }
}

/// The food of `s` that does not lie on cell `p`, in order.
pub open spec fn food_left(s: Seq<Food>, p: Position) -> Seq<Food>
    decreases s.len(),
{
    if s.len() == 0 {
        s
    } else {
        let rest = food_left(s.drop_last(), p);
        if s.last().position == p {
            rest
        } else {
            rest.push(s.last())
        }
    }
}

/// How many pieces of the food of `s` lie on cell `p`.
pub open spec fn food_at(s: Seq<Food>, p: Position) -> nat
    decreases s.len(),
{
    if s.len() == 0 {
        0
    } else {
        food_at(s.drop_last(), p) + if s.last().position == p {
            1nat
        } else {
            0nat
        }
    }
}

/// Eats the food under the snake's head: every piece on the head's cell is
/// removed, and the number removed is returned, one growth for each. Nothing
/// happens when there is no snake.
pub fn snake_eating(game: &mut Game) -> (r: usize)
    requires
        old(game).wf(),
    ensures
        final(game).wf(),
        r <= old(game).food@.len(),
        old(game).segments().len() == 0 ==> r == 0 && *final(game) == *old(game),
        old(game).segments().len() > 0 ==> {
            let head = old(game).segments()[0].position;
            &&& r == food_at(old(game).food@, head)
            &&& final(game).food@ == food_left(old(game).food@, head)
            &&& *final(game) == (Game { food: final(game).food, ..*old(game) })
        },
{
    if game.snake.0.len() == 0 {
        return 0;
    }
    let head = game.snake.0[0].position;
    let mut kept: Vec<Food> = Vec::new();
    let mut eaten: usize = 0;
    let mut i: usize = 0;
    while i < game.food.len()
        invariant
            0 <= i <= game.food@.len(),
            *game == *old(game),
            game.wf(),
            game.snake.0@.len() > 0,
            head == game.snake.0@[0].position,
            kept@ == food_left(game.food@.subrange(0, i as int), head),
            eaten == food_at(game.food@.subrange(0, i as int), head),
            eaten <= i,
            forall|k: int| 0 <= k < kept@.len() ==> #[trigger] kept@[k].id < game.next_id,
        decreases game.food@.len() - i,
    {
        let f = game.food[i];
        proof {
            assert(game.food@.subrange(0, i + 1).drop_last() =~= game.food@.subrange(0, i as int));
            assert(game.food@[i as int].id < game.next_id);
        }
        if f.position == head {
            eaten = eaten + 1;
        } else {
            kept.push(f);
        }
        i += 1;
    }
    proof {
        assert(game.food@.subrange(0, game.food@.len() as int) =~= game.food@);
    }
    game.food = kept;
    eaten
}

/// Adds `growths` segments after the tail, all on the cell where the tail
/// stood before the last movement. Without such a cell nothing happens.
pub fn snake_growth(game: &mut Game, growths: usize)
    requires
        old(game).wf(),
        old(game).next_id + growths <= u64::MAX,
    ensures
        final(game).wf(),
        old(game).last_tail.0.is_none() ==> *final(game) == *old(game),
        old(game).last_tail.0.is_some() ==> {
            let tail = old(game).last_tail.0.unwrap();
            let before = old(game).segments();
            let after = final(game).segments();
            &&& after.len() == before.len() + growths
            &&& forall|i: int| 0 <= i < before.len() ==> #[trigger] after[i] == before[i]
            &&& forall|i: int|
                before.len() <= i < after.len() ==> #[trigger] after[i] == (SnakeBody {
                    id: (old(game).next_id + (i - before.len())) as u64,
                    position: tail,
                })
            &&& *final(game) == (Game {
                snake: final(game).snake,
                next_id: (old(game).next_id + growths) as u64,
                ..*old(game)
            })
        },
{
    if let Some(tail) = game.last_tail.0 {
        let mut k: usize = 0;
        while k < growths
            invariant
                0 <= k <= growths,
                game.wf(),
                old(game).last_tail.0 == Some(tail),
                game.next_id == old(game).next_id + k,
                old(game).next_id + growths <= u64::MAX,
                game.segments().len() == old(game).segments().len() + k,
                forall|i: int|
                    0 <= i < old(game).segments().len() ==> #[trigger] game.segments()[i]
                        == old(game).segments()[i],
                forall|i: int|
                    old(game).segments().len() <= i < game.segments().len()
                        ==> #[trigger] game.segments()[i] == (SnakeBody {
                        id: (old(game).next_id + (i - old(game).segments().len())) as u64,
                        position: tail,
                    }),
                *game == (Game { snake: game.snake, next_id: game.next_id, ..*old(game) }),
            decreases growths - k,
        {
            append_segment(game, tail);
            k += 1;
        }
    }
}

/// Ends the game when told to: all food and every segment go, and a new
/// snake is made at the start cell.
pub fn gameover(game: &mut Game, game_over: bool)
    requires
        old(game).wf(),
        old(game).next_id < u64::MAX - 1,
    ensures
        final(game).wf(),
        !game_over ==> *final(game) == *old(game),
        game_over ==> {
            &&& final(game).food@.len() == 0
            &&& final(game).segments() == seq![
                (SnakeBody { id: old(game).next_id, position: start_position() }),
                (SnakeBody { id: (old(game).next_id + 1) as u64, position: start_body_position() }),
            ]
            &&& final(game).head.direction == Direction::Up
            &&& *final(game) == (Game {
                snake: final(game).snake,
                food: final(game).food,
                head: final(game).head,
                next_id: (old(game).next_id + 2) as u64,
                ..*old(game)
            })
        },
{
    if game_over {
        despawn_all_bodies_and_food(game);
        spawn_snake(game);
    }
}

/// Puts a piece of food on cell `position` and returns its identifier.
pub fn spawn_food_at(game: &mut Game, position: Position) -> (r: u64)
    requires
        old(game).wf(),
        old(game).next_id < u64::MAX,
    ensures
        final(game).wf(),
        r == old(game).next_id,
        final(game).food@ == old(game).food@.push(Food { id: r, position }),
        *final(game) == (Game {
            food: final(game).food,
            next_id: (old(game).next_id + 1) as u64,
            ..*old(game)
        }),
{
    let id = game.next_id;
    game.next_id = id + 1;
    game.food.push(Food { id, position });
    id
}

/// Relies on rand's `Rng::gen_range` over `0..bound` on the thread-local
/// generator: a value in the half-open range; it panics on an empty range.
#[verifier::external_body]
fn random_below(bound: u32) -> (r: u32)
    requires
        bound > 0,
    ensures
        r < bound,
{
    rand::thread_rng().gen_range(0..bound)
}

/// Puts a piece of food on a cell of the arena drawn at random, and returns it.
pub fn spanw_food(game: &mut Game) -> (r: Food)
    requires
        old(game).wf(),
        old(game).next_id < u64::MAX,
    ensures
        final(game).wf(),
        in_arena(r.position, old(game).grid.width, old(game).grid.height),
        r.id == old(game).next_id,
        final(game).food@ == old(game).food@.push(r),
        *final(game) == (Game {
            food: final(game).food,
            next_id: (old(game).next_id + 1) as u64,
            ..*old(game)
        }),
{
    let x = random_below(game.grid.width);
    let y = random_below(game.grid.height);
    let position = Position { x: x as i32, y: y as i32 };
    let id = spawn_food_at(game, position);
    Food { id, position }
}

/// One movement tick, its phases in order: the snake moves, eats what lies
/// under its head, grows by one segment for each piece eaten, and when its
/// head has left the arena the game starts over.
pub fn movement_tick(game: &mut Game) -> (r: Movement)
    requires
        old(game).wf(),
        old(game).segments().len() > 0 ==> can_step(
            old(game).segments()[0].position,
            old(game).head.direction,
        ),
        old(game).next_id + old(game).food@.len() + 2 <= u64::MAX,
    ensures
        final(game).wf(),
        r == Movement::NoHead <==> old(game).segments().len() == 0,
        r == Movement::NoHead ==> *final(game) == *old(game),
        r == Movement::OutOfBounds <==> old(game).segments().len() > 0 && !in_arena(
            step(old(game).segments()[0].position, old(game).head.direction),
            old(game).grid.width,
            old(game).grid.height,
        ),
        r == Movement::OutOfBounds ==> {
            let after = final(game).segments();
            &&& final(game).food@.len() == 0
            &&& after.len() == 2
            &&& after[0].position == start_position()
            &&& after[1].position == start_body_position()
            &&& final(game).head.direction == Direction::Up
            &&& final(game).grid == old(game).grid
        },
        r == Movement::Moved ==> {
            let before = old(game).segments();
            let head = step(before[0].position, old(game).head.direction);
            let after = final(game).segments();
            &&& after.len() == before.len() + food_at(old(game).food@, head)
            &&& after[0].position == head
            &&& forall|i: int|
                1 <= i < before.len() ==> #[trigger] after[i].position == before[i - 1].position
            &&& forall|i: int|
                before.len() <= i < after.len() ==> #[trigger] after[i].position
                    == before.last().position
            &&& final(game).food@ == food_left(old(game).food@, head)
            &&& final(game).head == old(game).head
            &&& final(game).grid == old(game).grid
        },
{
    let moved = snake_movement(game);
    if moved == Movement::NoHead {
        return moved;
    }
    let growths = snake_eating(game);
    snake_growth(game, growths);
    gameover(game, moved == Movement::OutOfBounds);
    moved
}

} // verus!
