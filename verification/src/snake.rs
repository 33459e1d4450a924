//! The snake: its cells from head to tail, and its heading.

use crate::grid::{in_grid, step, step_from, Direction, Position, TOP_ROW};
use std::collections::VecDeque;
use vstd::prelude::*;

verus! {

/// The snake's body, head first, and the heading of its next move.
pub struct Snake {
    body: VecDeque<Position>,
    direction: Direction,
}

impl View for Snake {
    type V = Seq<Position>;

    /// The cells of the body, head first.
    closed spec fn view(&self) -> Seq<Position> {
        self.body@
    }
}

impl Snake {
    /// The heading of the next move.
    pub closed spec fn heading(&self) -> Direction {
        self.direction
    }

    /// The cell that the next move would make the head: `None` where a wall
    /// or a cell of the body as it is now, the tail included, is in the way.
    pub open spec fn next_head(&self, width: u16, height: u16) -> Option<Position>
        recommends
            self@.len() > 0,
    {
        match step(self@[0], self.heading(), width, height) {
            Some(p) => if self@.contains(p) {
                None
            } else {
                Some(p)
            },
            None => None,
        }
    }

    /// A snake whose head is on the edge of the playing field and which
    /// heads for that edge has no next head.
    pub proof fn wall_blocks(&self, width: u16, height: u16)
        requires
            self@.len() > 0,
        ensures
            self.heading() == Direction::Up && self@[0].y == TOP_ROW ==> self.next_head(
                width,
                height,
            ) is None,
            self.heading() == Direction::Down && self@[0].y == height - 1 ==> self.next_head(
                width,
                height,
            ) is None,
            self.heading() == Direction::Left && self@[0].x == 0 ==> self.next_head(
                width,
                height,
            ) is None,
            self.heading() == Direction::Right && self@[0].x == width - 1 ==> self.next_head(
                width,
                height,
            ) is None,
    {
    }

    /// A next head is a cell of the playing field, where the head is one,
    /// and never a cell of the body.
    pub proof fn next_head_is_free_and_in_grid(&self, width: u16, height: u16)
        requires
            self@.len() > 0,
        ensures
            match self.next_head(width, height) {
                Some(p) => {
                    &&& !self@.contains(p)
                    &&& in_grid(self@[0], width, height) ==> in_grid(p, width, height)
                },
                None => true,
            },
    {
    }

    /// A snake of one cell at `start_pos`, heading right.
    pub fn new(start_pos: Position) -> (s: Snake)
        ensures
            s@ == seq![start_pos],
            s.heading() == Direction::Right,
    {
        let mut body = VecDeque::new();
        body.push_back(start_pos);
        proof {
            assert(body@ =~= seq![start_pos]);
        }
        Snake { body, direction: Direction::Right }
    }

    /// The number of cells.
    pub fn len(&self) -> (n: usize)
        ensures
            n == self@.len(),
    {
        self.body.len()
    }

    /// The head.
    pub fn head(&self) -> (p: Position)
        requires
            self@.len() > 0,
        ensures
            p == self@[0],
    {
        self.body[0]
    }

    /// The cell at `index`, counted from the head.
    pub fn segment(&self, index: usize) -> (p: Option<Position>)
        ensures
            p == (if index < self@.len() {
                Some(self@[index as int])
            } else {
                None
            }),
    {
        if index < self.body.len() {
            Some(self.body[index])
        } else {
            None
        }
    }

    /// The heading of the next move.
    pub fn direction(&self) -> (d: Direction)
        ensures
            d == self.heading(),
    {
        self.direction
    }

    /// Whether `p` is a cell of the body.
    pub fn occupies(&self, p: Position) -> (b: bool)
        ensures
            b == self@.contains(p),
    {
        let n: usize = self.body.len();
        let mut i: usize = 0;
        while i < n
            invariant
                n == self.body@.len(),
                i <= n,
                forall|j: int| 0 <= j < i ==> self.body@[j] != p,
            decreases n - i,
        {
            if self.body[i] == p {
                return true;
            }
            i += 1;
        }
        false
    }

    /// Moves the head one cell along the heading and keeps the tail, so that
    /// the body is one cell longer. Where a wall or the body is in the way
    /// the snake stays as it is and the result is `false`.
    pub fn move_snake(&mut self, width: u16, height: u16) -> (moved: bool)
        requires
            old(self)@.len() > 0,
        ensures
            moved == old(self).next_head(width, height).is_some(),
            final(self).heading() == old(self).heading(),
            match old(self).next_head(width, height) {
                Some(p) => final(self)@ == seq![p] + old(self)@,
                None => final(self)@ == old(self)@,
            },
            moved && in_grid(old(self)@[0], width, height) ==> in_grid(
                final(self)@[0],
                width,
                height,
            ),
    {
        let head = self.body[0];
        match step_from(head, self.direction, width, height) {
            Some(new_head) => {
                if self.occupies(new_head) {
                    false
                } else {
                    self.body.push_front(new_head);
                    true
                }
            },
            None => false,
        }
    }

    /// Does nothing: a move has already made the body longer, and the snake
    /// grows by not shrinking after it.
    pub fn grow(&mut self)
        ensures
            final(self)@ == old(self)@,
            final(self).heading() == old(self).heading(),
    {
    }

    /// Removes the tail cell, where there is one.
    pub fn shrink(&mut self)
        ensures
            final(self)@ == (if old(self)@.len() > 0 {
                old(self)@.drop_last()
            } else {
                old(self)@
            }),
            final(self).heading() == old(self).heading(),
    {
        let _ = self.body.pop_back();
    }

    /// Turns to `new_direction`, unless that is the reverse of the present
    /// heading: then the request is dropped.
    pub fn change_direction(&mut self, new_direction: Direction)
        ensures
            final(self).heading() == (if new_direction == old(self).heading().opposite() {
                old(self).heading()
            } else {
                new_direction
            }),
            final(self)@ == old(self)@,
    {
        if !self.direction.reverses(new_direction) {
            self.direction = new_direction;
        }
    }
}

} // verus!
