//! The game: one snake, one piece of food, the obstacles, the score and the
//! pace, and what a tick and a key do to them.

use crate::food::{Food, MAX_POINTS, MIN_POINTS};
use crate::grid::{in_grid, Direction, Position, TOP_ROW};
use crate::input::Key;
use crate::obstacle::{any_at, covers, Obstacle};
use crate::placement::{has_open_cell, open_cell, scatter, scattered, KEEP_OUT_REACH};
use crate::snake::Snake;
use vstd::prelude::*;

verus! {

/// The time between two ticks at speed level 1, in milliseconds.
pub const BASE_INTERVAL_MS: u64 = 200;

/// By how much each further speed level shortens that time.
pub const INTERVAL_STEP_MS: u64 = 15;

/// The shortest time between two ticks.
pub const MIN_INTERVAL_MS: u64 = 50;

/// What one tick came to.
#[derive(Clone, Copy, Debug, PartialEq, Eq, Structural)]
pub enum Tick {
    /// A wall or the snake's own body was in the way.
    Blocked,
    /// The head ran into an obstacle.
    Crashed,
    /// The head reached the food.
    Ate,
    /// The snake moved on by one cell.
    Moved,
}

/// The state of one game.
pub struct Game {
    pub snake: Snake,
    pub food: Food,
    pub obstacles: Vec<Obstacle>,
    pub score: u32,
    pub width: u16,
    pub height: u16,
    pub game_over: bool,
    pub speed_level: u32,
}

/// The time between two ticks at `speed_level`, in milliseconds: the base
/// time less one step for each level above the first, and never under the
/// shortest time.
pub open spec fn interval_ms(speed_level: u32) -> int {
    let shortened = BASE_INTERVAL_MS - (speed_level - 1) * INTERVAL_STEP_MS;
    if shortened > MIN_INTERVAL_MS {
        shortened
    } else {
        MIN_INTERVAL_MS as int
    }
}

/// The time between two ticks never falls under the shortest time.
pub proof fn interval_has_floor(speed_level: u32)
    ensures
        interval_ms(speed_level) >= MIN_INTERVAL_MS,
{
}

/// A higher speed level never lengthens the time between two ticks.
pub proof fn interval_never_rises(slower: u32, faster: u32)
    requires
        slower <= faster,
    ensures
        interval_ms(faster) <= interval_ms(slower),
{
}

/// The cell where the snake starts: the middle of the grid.
pub open spec fn center(width: u16, height: u16) -> Position {
    Position { x: width / 2, y: height / 2 }
}

/// Whether a game can be begun on a grid: the playing field has a cell, and
/// the keep-out box round the start leaves a column free on the left or a
/// row free at the bottom. A column free on the right, or a row free at the
/// top, comes to the same.
pub open spec fn playable(width: u16, height: u16) -> bool {
    &&& width > 0
    &&& height > TOP_ROW
    &&& (center(width, height).x > KEEP_OUT_REACH || center(width, height).y + KEEP_OUT_REACH
        < height - 1)
}

/// A grid is playable exactly where a cell of it is open to an obstacle of
/// a new game: one of the playing field, off the start and outside the
/// keep-out box round it.
pub proof fn playable_means_room_for_obstacles(width: u16, height: u16)
    ensures
        playable(width, height) == has_open_cell(
            width,
            height,
            seq![center(width, height)],
            Seq::<Obstacle>::empty(),
            Some(center(width, height)),
        ),
{
    let c = center(width, height);
    let none = Seq::<Obstacle>::empty();
    if playable(width, height) {
        let p = if c.x > KEEP_OUT_REACH {
            Position { x: 0, y: TOP_ROW }
        } else {
            Position { x: 0, y: (height - 1) as u16 }
        };
        assert(open_cell(p, width, height, seq![c], none, Some(c)));
    }
}

/// On a playable grid the obstacles of a new game leave a cell for the
/// food: one inside the keep-out box, beside the start.
pub proof fn playable_means_room_for_food(width: u16, height: u16, obstacles: Seq<Obstacle>)
    requires
        playable(width, height),
        scattered(obstacles, width, height, seq![center(width, height)], center(width, height)),
    ensures
        has_open_cell(width, height, seq![center(width, height)], obstacles, None),
{
    let c = center(width, height);
    let p = if width >= 2 {
        Position {
            x: (c.x - 1) as u16,
            y: if c.y >= TOP_ROW {
                c.y
            } else {
                TOP_ROW
            },
        }
    } else {
        Position { x: 0, y: (c.y + 1) as u16 }
    };
    assert(open_cell(p, width, height, seq![c], obstacles, None));
}

impl Game {
    /// The snake has a head, and the food a worth in its range.
    pub open spec fn wf(&self) -> bool {
        &&& self.snake@.len() > 0
        &&& self.food.wf()
    }

    /// Whether this is a game just begun on a `width` by `height` grid: a
    /// snake of one cell in the middle, heading right; obstacles off the
    /// snake and outside its keep-out box; food on a cell free of both; no
    /// score, the first speed level, and not over.
    pub open spec fn fresh(&self, width: u16, height: u16) -> bool {
        &&& self.width == width
        &&& self.height == height
        &&& self.snake@ == seq![center(width, height)]
        &&& self.snake.heading() == Direction::Right
        &&& scattered(self.obstacles@, width, height, self.snake@, center(width, height))
        &&& self.food.wf()
        &&& open_cell(self.food.position, width, height, self.snake@, self.obstacles@, None)
        &&& self.score == 0
        &&& self.speed_level == 1
        &&& !self.game_over
    }

    /// What the next tick comes to.
    pub open spec fn tick(&self) -> Tick
        recommends
            self.wf(),
    {
        match self.snake.next_head(self.width, self.height) {
            None => Tick::Blocked,
            Some(head) => if covers(self.obstacles@, head) {
                Tick::Crashed
            } else if head == self.food.position {
                Tick::Ate
            } else {
                Tick::Moved
            },
        }
    }

    /// What a tick does to the grid, the obstacles, the snake, the score and
    /// the speed level. A blocked snake stays; one that crashes has its head
    /// on the obstacle; one that eats is a cell longer, and the food's worth
    /// goes to the score; one that moves on keeps its length.
    pub open spec fn ticked(pre: Game, post: Game) -> bool
        recommends
            pre.wf(),
    {
        &&& post.width == pre.width
        &&& post.height == pre.height
        &&& post.obstacles@ == pre.obstacles@
        &&& post.snake.heading() == pre.snake.heading()
        &&& match pre.snake.next_head(pre.width, pre.height) {
            None => post.snake@ == pre.snake@,
            Some(head) => if pre.tick() == Tick::Moved {
                post.snake@ == (seq![head] + pre.snake@).drop_last()
            } else {
                post.snake@ == seq![head] + pre.snake@
            },
        }
        &&& if pre.tick() == Tick::Ate {
            &&& post.score == pre.score + pre.food.points
            &&& post.speed_level == pre.speed_level + 1
        } else {
            &&& post.score == pre.score
            &&& post.speed_level == pre.speed_level
        }
    }

    /// Whether the game is in order: no two cells of the snake are the
    /// same, each is a cell of the playing field, and the food lies on
    /// neither the snake nor an obstacle.
    pub open spec fn tidy(&self) -> bool {
        &&& self.snake@.no_duplicates()
        &&& forall|i: int|
            0 <= i < self.snake@.len() ==> in_grid(
                #[trigger] self.snake@[i],
                self.width,
                self.height,
            )
        &&& !self.snake@.contains(self.food.position)
        &&& !covers(self.obstacles@, self.food.position)
    }

    /// A tick keeps a game in order, given that food which was eaten is
    /// replaced by food on an open cell.
    pub proof fn tick_keeps_tidy(pre: Game, post: Game)
        requires
            pre.wf(),
            pre.tidy(),
            Game::ticked(pre, post),
            if pre.tick() == Tick::Ate {
                open_cell(
                    post.food.position,
                    post.width,
                    post.height,
                    post.snake@,
                    post.obstacles@,
                    None,
                )
            } else {
                post.food == pre.food
            },
        ensures
            post.tidy(),
    {
        match pre.snake.next_head(pre.width, pre.height) {
            None => {},
            Some(head) => {
                let grown = seq![head] + pre.snake@;
                assert(forall|i: int| 1 <= i < grown.len() ==> grown[i] == pre.snake@[i - 1]);
            },
        }
    }

    /// A game just begun is in order, where the grid has four rows or more:
    /// then its middle is a cell of the playing field.
    pub proof fn fresh_is_tidy(&self, width: u16, height: u16)
        requires
            self.fresh(width, height),
            height >= 4,
        ensures
            self.tidy(),
    {
        let first = self.obstacles@[0].position;
        assert(open_cell(
            first,
            width,
            height,
            self.snake@,
            Seq::<Obstacle>::empty(),
            Some(center(width, height)),
        ));
    }

    /// Whether `post` is `pre` but for the snake's heading.
    pub open spec fn steered(pre: Game, post: Game) -> bool {
        &&& post.width == pre.width
        &&& post.height == pre.height
        &&& post.obstacles@ == pre.obstacles@
        &&& post.snake@ == pre.snake@
        &&& post.food == pre.food
        &&& post.score == pre.score
        &&& post.speed_level == pre.speed_level
        &&& post.game_over == pre.game_over
    }

    /// A new game on a `width` by `height` grid, where the grid is
    /// playable. Chance picks the obstacles and the food.
    pub fn new(width: u16, height: u16) -> (r: Option<Game>)
        ensures
            r is Some == playable(width, height),
            match r {
                Some(game) => game.fresh(width, height) && game.wf(),
                None => true,
            },
    {
        let start_pos = Position { x: width / 2, y: height / 2 };
        let snake = Snake::new(start_pos);
        proof {
            playable_means_room_for_obstacles(width, height);
        }
        let obstacles = match scatter(width, height, &snake, start_pos) {
            Some(obstacles) => obstacles,
            None => {
                return None;
            },
        };
        proof {
            assert(open_cell(
                obstacles@[0].position,
                width,
                height,
                snake@,
                Seq::<Obstacle>::empty(),
                Some(start_pos),
            ));
            playable_means_room_for_food(width, height, obstacles@);
        }
        match Food::new(width, height, &snake, &obstacles) {
            Some(food) => Some(
                Game {
                    snake,
                    food,
                    obstacles,
                    score: 0,
                    width,
                    height,
                    game_over: false,
                    speed_level: 1,
                },
            ),
            None => None,
        }
    }

    /// One tick but for the new food: the snake moves, and the game is over
    /// where it was blocked or crashed; where it ate, score and speed level
    /// rise and the food stays under its head.
    pub fn advance(&mut self) -> (t: Tick)
        requires
            old(self).wf(),
            old(self).tick() == Tick::Ate ==> old(self).score + old(self).food.points <= u32::MAX
                && old(self).speed_level < u32::MAX,
        ensures
            t == old(self).tick(),
            Game::ticked(*old(self), *final(self)),
            final(self).wf(),
            final(self).food == old(self).food,
            final(self).game_over == (old(self).game_over || t == Tick::Blocked || t
                == Tick::Crashed),
    {
        if !self.snake.move_snake(self.width, self.height) {
            self.game_over = true;
            return Tick::Blocked;
        }
        let head = self.snake.head();
        if any_at(&self.obstacles, head) {
            self.game_over = true;
            return Tick::Crashed;
        }
        if head == self.food.position {
            self.score += self.food.points;
            self.snake.grow();
            self.speed_level += 1;
            Tick::Ate
        } else {
            self.snake.shrink();
            Tick::Moved
        }
    }

    /// One tick. The snake moves as `advance` says. Where it ate, new food
    /// of a random worth comes on a cell free of the snake and the
    /// obstacles; where no cell is free, the food stays and the game is over.
    /// A game that is over is ticked like any other, and stays over.
    pub fn update(&mut self)
        requires
            old(self).wf(),
            old(self).tick() == Tick::Ate ==> old(self).score + old(self).food.points <= u32::MAX
                && old(self).speed_level < u32::MAX,
        ensures
            Game::ticked(*old(self), *final(self)),
            final(self).wf(),
            old(self).tick() == Tick::Moved ==> final(self).snake@.len() == old(self).snake@.len(),
            old(self).tick() == Tick::Ate ==> {
                &&& final(self).snake@.len() == old(self).snake@.len() + 1
                &&& final(self).score == old(self).score + old(self).food.points
                &&& final(self).score - old(self).score >= MIN_POINTS
                &&& final(self).score - old(self).score <= MAX_POINTS
            },
            old(self).tick() == Tick::Crashed ==> final(self).score == old(self).score,
            old(self).tidy() && (old(self).tick() == Tick::Ate ==> has_open_cell(
                old(self).width,
                old(self).height,
                final(self).snake@,
                old(self).obstacles@,
                None,
            )) ==> final(self).tidy(),
            match old(self).tick() {
                Tick::Blocked | Tick::Crashed => {
                    &&& final(self).game_over
                    &&& final(self).food == old(self).food
                },
                Tick::Moved => {
                    &&& final(self).game_over == old(self).game_over
                    &&& final(self).food == old(self).food
                },
                Tick::Ate => if has_open_cell(
                    old(self).width,
                    old(self).height,
                    final(self).snake@,
                    old(self).obstacles@,
                    None,
                ) {
                    &&& final(self).game_over == old(self).game_over
                    &&& final(self).food.wf()
                    &&& open_cell(
                        final(self).food.position,
                        old(self).width,
                        old(self).height,
                        final(self).snake@,
                        old(self).obstacles@,
                        None,
                    )
                } else {
                    &&& final(self).game_over
                    &&& final(self).food == old(self).food
                },
            },
    {
        match self.advance() {
            Tick::Ate => {
                match Food::new(self.width, self.height, &self.snake, &self.obstacles) {
                    Some(food) => {
                        self.food = food;
                    },
                    None => {
                        self.game_over = true;
                    },
                }
            },
            _ => {},
        }
        proof {
            if old(self).tidy() && (old(self).tick() == Tick::Ate ==> has_open_cell(
                self.width,
                self.height,
                self.snake@,
                self.obstacles@,
                None,
            )) {
                Game::tick_keeps_tidy(*old(self), *self);
            }
        }
    }

    /// The time between two ticks at the present speed level, in
    /// milliseconds.
    pub fn get_update_interval(&self) -> (ms: u64)
        ensures
            ms == interval_ms(self.speed_level),
            ms >= MIN_INTERVAL_MS,
    {
        let level: u64 = self.speed_level as u64;
        let decrease: u64 = level * INTERVAL_STEP_MS;
        if BASE_INTERVAL_MS + INTERVAL_STEP_MS > decrease + MIN_INTERVAL_MS {
            BASE_INTERVAL_MS + INTERVAL_STEP_MS - decrease
        } else {
            MIN_INTERVAL_MS
        }
    }

    /// Whether a tick is due when `elapsed_ms` milliseconds have passed
    /// since the last one.
    pub fn is_tick_due(&self, elapsed_ms: u64) -> (due: bool)
        ensures
            due == (elapsed_ms >= interval_ms(self.speed_level)),
    {
        elapsed_ms >= self.get_update_interval()
    }

    /// Begins anew on the same grid, as `new` does. Where the grid is not
    /// playable the game stays as it is and the result is `false`.
    pub fn restart(&mut self) -> (ok: bool)
        ensures
            ok == playable(old(self).width, old(self).height),
            ok ==> final(self).fresh(old(self).width, old(self).height) && final(self).wf(),
            !ok ==> *final(self) == *old(self),
    {
        match Game::new(self.width, self.height) {
            Some(game) => {
                *self = game;
                true
            },
            None => false,
        }
    }

    /// Acts on a key and says whether the program goes on: only `Quit` ends
    /// it. While the game runs, a move key turns the snake, unless it asks
    /// for a reversal. When the game is over, `Restart` begins anew, as
    /// `restart` does. Every other key leaves the game as it is.
    pub fn handle_key(&mut self, key: Key) -> (keep_running: bool)
        ensures
            keep_running == (key != Key::Quit),
            match Game::turn_of(key) {
                Some(d) => if old(self).game_over {
                    *final(self) == *old(self)
                } else {
                    &&& Game::steered(*old(self), *final(self))
                    &&& final(self).snake.heading() == (if d == old(
                        self,
                    ).snake.heading().opposite() {
                        old(self).snake.heading()
                    } else {
                        d
                    })
                },
                None => if key == Key::Restart && old(self).game_over && playable(
                    old(self).width,
                    old(self).height,
                ) {
                    final(self).fresh(old(self).width, old(self).height)
                } else {
                    *final(self) == *old(self)
                },
            },
    {
        match key {
            Key::Quit => false,
            Key::MoveUp => {
                self.steer(Direction::Up);
                true
            },
            Key::MoveDown => {
                self.steer(Direction::Down);
                true
            },
            Key::MoveLeft => {
                self.steer(Direction::Left);
                true
            },
            Key::MoveRight => {
                self.steer(Direction::Right);
                true
            },
            Key::Restart => {
                if self.game_over {
                    let _ = self.restart();
                }
                true
            },
            Key::Other => true,
        }
    }

    /// The heading that a key asks for, if it is a move key.
    pub open spec fn turn_of(key: Key) -> Option<Direction> {
        match key {
            Key::MoveUp => Some(Direction::Up),
            Key::MoveDown => Some(Direction::Down),
            Key::MoveLeft => Some(Direction::Left),
            Key::MoveRight => Some(Direction::Right),
            _ => None,
        }
    }

    /// Turns the snake of a running game; a game that is over stays as it is.
    fn steer(&mut self, d: Direction)
        ensures
            if old(self).game_over {
                *final(self) == *old(self)
            } else {
                &&& Game::steered(*old(self), *final(self))
                &&& final(self).snake.heading() == (if d == old(self).snake.heading().opposite() {
                    old(self).snake.heading()
                } else {
                    d
                })
            },
    {
        if !self.game_over {
            self.snake.change_direction(d);
        }
    }
}

} // verus!
