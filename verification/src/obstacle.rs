//! Obstacles: cells that end the game when the head reaches them.

use crate::grid::Position;
use vstd::prelude::*;

verus! {

/// A cell that the snake must not enter. It never moves.
#[derive(Clone, Copy, Debug, PartialEq, Eq, Structural)]
pub struct Obstacle {
    pub position: Position,
}

impl Obstacle {
    /// An obstacle at `position`.
    pub fn new(position: Position) -> (o: Obstacle)
        ensures
            o.position == position,
    {
        Obstacle { position }
    }
}

/// Whether one of `obstacles` stands on `p`.
pub open spec fn covers(obstacles: Seq<Obstacle>, p: Position) -> bool {
    exists|i: int| 0 <= i < obstacles.len() && (#[trigger] obstacles[i]).position == p
}

/// Computes `covers`.
pub fn any_at(obstacles: &Vec<Obstacle>, p: Position) -> (b: bool)
    ensures
        b == covers(obstacles@, p),
{
    let n: usize = obstacles.len();
    let mut i: usize = 0;
    while i < n
        invariant
            n == obstacles@.len(),
            i <= n,
            forall|j: int| 0 <= j < i ==> (#[trigger] obstacles@[j]).position != p,
        decreases n - i,
    {
        if obstacles[i].position == p {
            return true;
        }
        i += 1;
    }
    false
}

} // verus!
