//! Cells of the playing field and the four headings.

use vstd::prelude::*;

verus! {

/// The first row of the playing field; the rows above it hold the status line.
pub const TOP_ROW: u16 = 2;

/// A cell of the grid, by column and row.
#[derive(Clone, Copy, Debug, PartialEq, Eq, Structural)]
pub struct Position {
    pub x: u16,
    pub y: u16,
}

/// A heading of the snake.
#[derive(Clone, Copy, Debug, PartialEq, Eq, Structural)]
pub enum Direction {
    Up,
    Down,
    Left,
    Right,
}

impl Direction {
    /// The heading that points the other way.
    pub open spec fn opposite(self) -> Direction {
        match self {
            Direction::Up => Direction::Down,
            Direction::Down => Direction::Up,
            Direction::Left => Direction::Right,
            Direction::Right => Direction::Left,
        }
    }

    /// Whether `other` is the exact reverse of this heading.
    pub fn reverses(self, other: Direction) -> (b: bool)
        ensures
            b == (other == self.opposite()),
    {
        match (self, other) {
            (Direction::Up, Direction::Down) => true,
            (Direction::Down, Direction::Up) => true,
            (Direction::Left, Direction::Right) => true,
            (Direction::Right, Direction::Left) => true,
            _ => false,
        }
    }
}

/// The playing field of a `width` by `height` grid: every column, and the
/// rows from `TOP_ROW` down.
pub open spec fn in_grid(p: Position, width: u16, height: u16) -> bool {
    p.x < width && TOP_ROW <= p.y < height
}

/// The cell next to `head` in direction `d`, or `None` where a wall is in
/// the way: above `TOP_ROW`, below the last row, or beside the first or last
/// column.
pub open spec fn step(head: Position, d: Direction, width: u16, height: u16) -> Option<Position> {
    match d {
        Direction::Up => if head.y <= TOP_ROW {
            None
        } else {
            Some(Position { x: head.x, y: (head.y - 1) as u16 })
        },
        Direction::Down => if head.y >= height - 1 {
            None
        } else {
            Some(Position { x: head.x, y: (head.y + 1) as u16 })
        },
        Direction::Left => if head.x == 0 {
            None
        } else {
            Some(Position { x: (head.x - 1) as u16, y: head.y })
        },
        Direction::Right => if head.x >= width - 1 {
            None
        } else {
            Some(Position { x: (head.x + 1) as u16, y: head.y })
        },
    }
}

/// Computes `step`.
pub fn step_from(head: Position, d: Direction, width: u16, height: u16) -> (r: Option<Position>)
    ensures
        r == step(head, d, width, height),
{
    match d {
        Direction::Up => if head.y <= TOP_ROW {
            None
        } else {
            Some(Position { x: head.x, y: head.y - 1 })
        },
        Direction::Down => if height == 0 || head.y >= height - 1 {
            None
        } else {
            Some(Position { x: head.x, y: head.y + 1 })
        },
        Direction::Left => if head.x == 0 {
            None
        } else {
            Some(Position { x: head.x - 1, y: head.y })
        },
        Direction::Right => if width == 0 || head.x >= width - 1 {
            None
        } else {
            Some(Position { x: head.x + 1, y: head.y })
        },
    }
}

/// A step from a cell of the playing field never leaves the playing field.
pub proof fn step_stays_in_grid(head: Position, d: Direction, width: u16, height: u16)
    requires
        in_grid(head, width, height),
    ensures
        match step(head, d, width, height) {
            Some(p) => in_grid(p, width, height),
            None => true,
        },
{
}

/// From a cell on the edge of the playing field, a step toward that edge is
/// blocked.
pub proof fn step_blocked_at_edges(head: Position, width: u16, height: u16)
    ensures
        head.y == TOP_ROW ==> step(head, Direction::Up, width, height) is None,
        head.y == height - 1 ==> step(head, Direction::Down, width, height) is None,
        head.x == 0 ==> step(head, Direction::Left, width, height) is None,
        head.x == width - 1 ==> step(head, Direction::Right, width, height) is None,
{
}

} // verus!
