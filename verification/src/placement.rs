//! Where food and obstacles may be put, and how a cell is found for them.

use crate::chance::{pick_below, pick_through};
use crate::grid::{in_grid, Position, TOP_ROW};
use crate::obstacle::{any_at, covers, Obstacle};
use crate::snake::Snake;
use vstd::prelude::*;

verus! {

/// How far the keep-out box reaches from its centre, in columns and in rows.
pub const KEEP_OUT_REACH: u16 = 2;

/// The number of random cells tried before the grid is searched in order.
pub const SAMPLE_TRIES: u32 = 1000;

/// The least number of obstacles of a game.
pub const MIN_OBSTACLES: u32 = 5;

/// The greatest number of obstacles of a game.
pub const MAX_OBSTACLES: u32 = 8;

/// Whether `p` lies outside the box that reaches `KEEP_OUT_REACH` cells from
/// `center` in each direction.
pub open spec fn outside_keep_out(p: Position, center: Position) -> bool {
    ||| p.x < center.x - KEEP_OUT_REACH
    ||| p.x > center.x + KEEP_OUT_REACH
    ||| p.y < center.y - KEEP_OUT_REACH
    ||| p.y > center.y + KEEP_OUT_REACH
}

/// Whether something new may be put on `p`: a cell of the playing field
/// that holds neither the snake nor an obstacle and, where a keep-out box
/// is given by its centre, lies outside that box.
pub open spec fn open_cell(
    p: Position,
    width: u16,
    height: u16,
    snake: Seq<Position>,
    obstacles: Seq<Obstacle>,
    keep_out: Option<Position>,
) -> bool {
    &&& in_grid(p, width, height)
    &&& !snake.contains(p)
    &&& !covers(obstacles, p)
    &&& match keep_out {
        Some(center) => outside_keep_out(p, center),
        None => true,
    }
}

/// Whether any cell is open.
pub open spec fn has_open_cell(
    width: u16,
    height: u16,
    snake: Seq<Position>,
    obstacles: Seq<Obstacle>,
    keep_out: Option<Position>,
) -> bool {
    exists|p: Position| open_cell(p, width, height, snake, obstacles, keep_out)
}

/// Computes `outside_keep_out`.
pub fn is_outside_keep_out(p: Position, center: Position) -> (b: bool)
    ensures
        b == outside_keep_out(p, center),
{
    let reach: u32 = KEEP_OUT_REACH as u32;
    let px: u32 = p.x as u32;
    let py: u32 = p.y as u32;
    let cx: u32 = center.x as u32;
    let cy: u32 = center.y as u32;
    px + reach < cx || px > cx + reach || py + reach < cy || py > cy + reach
}

/// Computes `open_cell`.
pub fn is_open(
    p: Position,
    width: u16,
    height: u16,
    snake: &Snake,
    obstacles: &Vec<Obstacle>,
    keep_out: Option<Position>,
) -> (b: bool)
    ensures
        b == open_cell(p, width, height, snake@, obstacles@, keep_out),
{
    if !(p.x < width && TOP_ROW <= p.y && p.y < height) {
        return false;
    }
    if snake.occupies(p) || any_at(obstacles, p) {
        return false;
    }
    match keep_out {
        Some(center) => is_outside_keep_out(p, center),
        None => true,
    }
}

/// The first open cell, rows from the top and each row from the left, or
/// `None` where no cell is open.
pub fn first_open(
    width: u16,
    height: u16,
    snake: &Snake,
    obstacles: &Vec<Obstacle>,
    keep_out: Option<Position>,
) -> (r: Option<Position>)
    ensures
        match r {
            Some(p) => {
                &&& open_cell(p, width, height, snake@, obstacles@, keep_out)
                &&& forall|q: Position| #[trigger]
                    open_cell(q, width, height, snake@, obstacles@, keep_out) ==> q.y > p.y || (q.y
                        == p.y && q.x >= p.x)
            },
            None => !has_open_cell(width, height, snake@, obstacles@, keep_out),
        },
{
    let mut y: u16 = TOP_ROW;
    while y < height
        invariant
            TOP_ROW <= y,
            forall|q: Position| #[trigger]
                open_cell(q, width, height, snake@, obstacles@, keep_out) ==> q.y >= y,
        decreases height - y,
    {
        let mut x: u16 = 0;
        while x < width
            invariant
                y < height,
                x <= width,
                forall|q: Position| #[trigger]
                    open_cell(q, width, height, snake@, obstacles@, keep_out) ==> q.y > y || (q.y
                        == y && q.x >= x),
            decreases width - x,
        {
            let p = Position { x, y };
            if is_open(p, width, height, snake, obstacles, keep_out) {
                return Some(p);
            }
            x += 1;
        }
        y += 1;
    }
    None
}

/// An open cell: one drawn at random where `SAMPLE_TRIES` draws find one,
/// else the first in order. `None` exactly where no cell is open.
pub fn sample_open(
    width: u16,
    height: u16,
    snake: &Snake,
    obstacles: &Vec<Obstacle>,
    keep_out: Option<Position>,
) -> (r: Option<Position>)
    ensures
        match r {
            Some(p) => open_cell(p, width, height, snake@, obstacles@, keep_out),
            None => !has_open_cell(width, height, snake@, obstacles@, keep_out),
        },
{
    if width > 0 && height > TOP_ROW {
        let mut tries: u32 = 0;
        while tries < SAMPLE_TRIES
            invariant
                width > 0,
                height > TOP_ROW,
            decreases SAMPLE_TRIES - tries,
        {
            let p = Position { x: pick_below(0, width), y: pick_below(TOP_ROW, height) };
            if is_open(p, width, height, snake, obstacles, keep_out) {
                return Some(p);
            }
            tries += 1;
        }
    }
    first_open(width, height, snake, obstacles, keep_out)
}

/// Whether `obstacles` is a set that a game may start with: between
/// `MIN_OBSTACLES` and `MAX_OBSTACLES` of them, each on a cell of the playing
/// field that is off the snake and outside the keep-out box round `center`.
/// Two of them may stand on one cell.
pub open spec fn scattered(
    obstacles: Seq<Obstacle>,
    width: u16,
    height: u16,
    snake: Seq<Position>,
    center: Position,
) -> bool {
    &&& MIN_OBSTACLES <= obstacles.len() <= MAX_OBSTACLES
    &&& forall|i: int|
        0 <= i < obstacles.len() ==> open_cell(
            (#[trigger] obstacles[i]).position,
            width,
            height,
            snake,
            Seq::<Obstacle>::empty(),
            Some(center),
        )
}

/// A random number of obstacles, each on a cell found by `sample_open`
/// with the keep-out box round `center`. `None` exactly where no cell is
/// open to an obstacle.
pub fn scatter(width: u16, height: u16, snake: &Snake, center: Position) -> (r: Option<
    Vec<Obstacle>,
>)
    ensures
        match r {
            Some(obstacles) => scattered(obstacles@, width, height, snake@, center),
            None => !has_open_cell(
                width,
                height,
                snake@,
                Seq::<Obstacle>::empty(),
                Some(center),
            ),
        },
{
    let none: Vec<Obstacle> = Vec::new();
    let count: u32 = pick_through(MIN_OBSTACLES, MAX_OBSTACLES);
    let mut obstacles: Vec<Obstacle> = Vec::new();
    let mut placed: u32 = 0;
    while placed < count
        invariant
            none@ == Seq::<Obstacle>::empty(),
            placed <= count,
            obstacles@.len() == placed,
            forall|i: int|
                0 <= i < obstacles@.len() ==> open_cell(
                    (#[trigger] obstacles@[i]).position,
                    width,
                    height,
                    snake@,
                    Seq::<Obstacle>::empty(),
                    Some(center),
                ),
        decreases count - placed,
    {
        match sample_open(width, height, snake, &none, Some(center)) {
            Some(p) => {
                obstacles.push(Obstacle::new(p));
            },
            None => {
                return None;
            },
        }
        placed += 1;
    }
    Some(obstacles)
}

} // verus!
