//! What is to be painted of a game, in the order of painting.

use crate::game::Game;
use crate::grid::Position;
use crate::obstacle::Obstacle;
use vstd::prelude::*;

verus! {

/// The look of a painted cell.
#[derive(Clone, Copy, Debug, PartialEq, Eq, Structural)]
pub enum Glyph {
    Head,
    Body,
    Food,
    Obstacle,
}

/// One cell to paint.
#[derive(Clone, Copy, Debug, PartialEq, Eq, Structural)]
pub struct Sprite {
    pub position: Position,
    pub glyph: Glyph,
}

/// The snake's cells from the head on: the head has a glyph of its own.
pub open spec fn snake_sprites(cells: Seq<Position>) -> Seq<Sprite> {
    Seq::new(
        cells.len(),
        |i: int|
            Sprite {
                position: cells[i],
                glyph: if i == 0 {
                    Glyph::Head
                } else {
                    Glyph::Body
                },
            },
    )
}

/// The obstacles, in their order.
pub open spec fn obstacle_sprites(obstacles: Seq<Obstacle>) -> Seq<Sprite> {
    Seq::new(
        obstacles.len(),
        |i: int| Sprite { position: obstacles[i].position, glyph: Glyph::Obstacle },
    )
}

/// All that is painted of a game: the snake, then the food, then the
/// obstacles. Where two share a cell, the later one shows.
pub open spec fn painted(game: &Game) -> Seq<Sprite> {
    snake_sprites(game.snake@) + seq![
        Sprite { position: game.food.position, glyph: Glyph::Food },
    ] + obstacle_sprites(game.obstacles@)
}

/// Computes `painted`.
pub fn sprites(game: &Game) -> (out: Vec<Sprite>)
    ensures
        out@ == painted(game),
{
    let mut out: Vec<Sprite> = Vec::new();
    let cells: usize = game.snake.len();
    let mut i: usize = 0;
    while i < cells
        invariant
            cells == game.snake@.len(),
            i <= cells,
            out@ == snake_sprites(game.snake@.take(i as int)),
        decreases cells - i,
    {
        let glyph = if i == 0 {
            Glyph::Head
        } else {
            Glyph::Body
        };
        if let Some(position) = game.snake.segment(i) {
            out.push(Sprite { position, glyph });
        }
        i += 1;
        proof {
            assert(out@ =~= snake_sprites(game.snake@.take(i as int)));
        }
    }
    proof {
        assert(game.snake@.take(cells as int) =~= game.snake@);
    }
    out.push(Sprite { position: game.food.position, glyph: Glyph::Food });
    let count: usize = game.obstacles.len();
    let ghost head = out@;
    let mut j: usize = 0;
    while j < count
        invariant
            count == game.obstacles@.len(),
            j <= count,
            out@ == head + obstacle_sprites(game.obstacles@.take(j as int)),
        decreases count - j,
    {
        out.push(Sprite { position: game.obstacles[j].position, glyph: Glyph::Obstacle });
        j += 1;
        proof {
            assert(out@ =~= head + obstacle_sprites(game.obstacles@.take(j as int)));
        }
    }
    proof {
        assert(game.obstacles@.take(count as int) =~= game.obstacles@);
        assert(out@ =~= painted(game));
    }
    out
}

} // verus!
