//! Food: the cell it lies on and what it is worth.

use crate::chance::pick_through;
use crate::grid::Position;
use crate::obstacle::Obstacle;
use crate::placement::{has_open_cell, open_cell, sample_open};
use crate::snake::Snake;
use vstd::prelude::*;

verus! {

/// The least worth of a piece of food.
pub const MIN_POINTS: u32 = 1;

/// The greatest worth of a piece of food.
pub const MAX_POINTS: u32 = 5;

/// The one piece of food on the grid.
#[derive(Clone, Copy, Debug, PartialEq, Eq, Structural)]
pub struct Food {
    pub position: Position,
    pub points: u32,
}

impl Food {
    /// The worth lies between `MIN_POINTS` and `MAX_POINTS`.
    pub open spec fn wf(&self) -> bool {
        MIN_POINTS <= self.points <= MAX_POINTS
    }

    /// Food of a random worth on a cell that holds neither the snake nor an
    /// obstacle, found by `sample_open`. `None` exactly where every cell of
    /// the playing field is taken.
    pub fn new(width: u16, height: u16, snake: &Snake, obstacles: &Vec<Obstacle>) -> (r: Option<
        Food,
    >)
        ensures
            match r {
                Some(food) => {
                    &&& food.wf()
                    &&& open_cell(food.position, width, height, snake@, obstacles@, None)
                },
                None => !has_open_cell(width, height, snake@, obstacles@, None),
            },
    {
        match sample_open(width, height, snake, obstacles, None) {
            Some(position) => Some(Food { position, points: pick_through(MIN_POINTS, MAX_POINTS) }),
            None => None,
        }
    }
}

} // verus!
