//! The data that the simulation works on.

use vstd::prelude::*;

verus! {

/// A cell of the arena, in cell units.
#[derive(Clone, Copy, Debug, PartialEq, Eq, Structural)]
pub struct Position {
    pub x: i32,
    pub y: i32,
}

/// Where a new snake's head starts.
pub open spec fn start_position() -> Position {
    Position { x: 3, y: 3 }
}

impl Default for Position {
    fn default() -> (r: Self)
        ensures
            r == start_position(),
    {
        Position { x: 3, y: 3 }
    }
}

/// A heading on the grid.
#[derive(Clone, Copy, Debug, PartialEq, Eq, Structural)]
pub enum Direction {
    Up,
    Down,
    Left,
    Right,
}

impl Default for Direction {
    fn default() -> (r: Self)
        ensures
            r == Direction::Up,
    {
        Direction::Up
    }
}

/// The reverse of a heading.
pub open spec fn opposite_of(d: Direction) -> Direction {
    match d {
        Direction::Up => Direction::Down,
        Direction::Down => Direction::Up,
        Direction::Left => Direction::Right,
        Direction::Right => Direction::Left,
    }
}

impl Direction {
    pub fn opposite(&self) -> (r: Self)
        ensures
            r == opposite_of(*self),
    {
        match self {
            Direction::Up => Direction::Down,
            Direction::Down => Direction::Up,
            Direction::Left => Direction::Right,
            Direction::Right => Direction::Left,
        }
    }
}

/// Whether `p` can take one step towards `d` without leaving the range of `i32`.
pub open spec fn can_step(p: Position, d: Direction) -> bool {
    match d {
        Direction::Up => p.y < i32::MAX,
        Direction::Down => p.y > i32::MIN,
        Direction::Left => p.x > i32::MIN,
        Direction::Right => p.x < i32::MAX,
    }
}

/// The cell next to `p` towards `d`: up is `+y`, right is `+x`.
pub open spec fn step(p: Position, d: Direction) -> Position
    recommends
        can_step(p, d),
{
    match d {
        Direction::Up => Position { x: p.x, y: (p.y + 1) as i32 },
        Direction::Down => Position { x: p.x, y: (p.y - 1) as i32 },
        Direction::Left => Position { x: (p.x - 1) as i32, y: p.y },
        Direction::Right => Position { x: (p.x + 1) as i32, y: p.y },
    }
}

/// The head of the snake carries its heading.
#[derive(Clone, Copy, Debug, PartialEq, Eq, Structural)]
pub struct SnakeHead {
    pub direction: Direction,
}

impl Default for SnakeHead {
    fn default() -> (r: Self)
        ensures
            r.direction == Direction::Up,
    {
        SnakeHead { direction: Direction::Up }
    }
}

/// One segment of the snake, the head included: an identifier and a cell.
#[derive(Clone, Copy, Debug, PartialEq, Eq, Structural)]
pub struct SnakeBody {
    pub id: u64,
    pub position: Position,
}

/// The segments of the snake in order: the head first, the tail last.
#[derive(Clone, Debug, Default)]
pub struct SnakeState(pub Vec<SnakeBody>);

/// A piece of food on the board: an identifier and a cell.
#[derive(Clone, Copy, Debug, PartialEq, Eq, Structural)]
pub struct Food {
    pub id: u64,
    pub position: Position,
}

/// The phases of a movement tick, in the order in which they run.
#[derive(Clone, Copy, Debug, PartialEq, Eq, Hash)]
pub enum SnakeAction {
    Eating,
    Growth,
    Input,
    Movement,
}

/// Where the tail stood before the last movement, if the snake has moved.
#[derive(Clone, Copy, Debug, Default)]
pub struct LastTailPosition(pub Option<Position>);

} // verus!
