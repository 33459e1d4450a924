use snake_game::food::Food;
use snake_game::game::{Game, Tick};
use snake_game::grid::{Direction, Position};
use snake_game::input::{classify, Key, KeyPress};
use snake_game::obstacle::{any_at, Obstacle};
use snake_game::placement::is_outside_keep_out;
use snake_game::snake::Snake;

fn at(x: u16, y: u16) -> Position {
    Position { x, y }
}

fn game(width: u16, height: u16, start: Position, food: Food, obstacles: Vec<Obstacle>) -> Game {
    Game {
        snake: Snake::new(start),
        food,
        obstacles,
        score: 0,
        width,
        height,
        game_over: false,
        speed_level: 1,
    }
}

fn at_level(speed_level: u32) -> Game {
    let mut g = game(20, 20, at(10, 9), Food { position: at(0, 2), points: 1 }, Vec::new());
    g.speed_level = speed_level;
    g
}

#[test]
fn three_moves_right_on_a_clear_path() {
    let mut g = game(20, 20, at(10, 9), Food { position: at(3, 15), points: 3 }, Vec::new());
    g.snake.change_direction(Direction::Right);
    g.update();
    g.snake.change_direction(Direction::Right);
    g.update();
    g.snake.change_direction(Direction::Right);
    g.update();
    assert_eq!(g.snake.head(), at(13, 9));
    assert_eq!(g.snake.len(), 1);
    assert!(!g.game_over);
    assert_eq!(g.score, 0);
    assert_eq!(g.speed_level, 1);
    assert_eq!(g.food, Food { position: at(3, 15), points: 3 });
}

#[test]
fn reversal_command_leaves_the_heading() {
    let mut g = game(20, 20, at(5, 5), Food { position: at(3, 15), points: 3 }, Vec::new());
    assert!(g.handle_key(Key::MoveLeft));
    assert_eq!(g.snake.direction(), Direction::Right);
    g.update();
    assert_eq!(g.snake.head(), at(6, 5));
}

#[test]
fn hitting_an_obstacle_ends_the_game() {
    let mut g = game(
        20,
        20,
        at(5, 5),
        Food { position: at(3, 15), points: 3 },
        vec![Obstacle::new(at(9, 9)), Obstacle::new(at(6, 5))],
    );
    g.score = 7;
    g.speed_level = 4;
    g.update();
    assert!(g.game_over);
    assert_eq!(g.score, 7);
    assert_eq!(g.speed_level, 4);
    assert_eq!(g.snake.head(), at(6, 5));
    assert_eq!(g.snake.len(), 2);
    assert_eq!(g.food, Food { position: at(3, 15), points: 3 });
}

#[test]
fn obstacle_on_the_food_cell_still_ends_the_game() {
    let mut g = game(
        20,
        20,
        at(5, 5),
        Food { position: at(6, 5), points: 3 },
        vec![Obstacle::new(at(6, 5))],
    );
    assert_eq!(g.advance(), Tick::Crashed);
    assert!(g.game_over);
    assert_eq!(g.score, 0);
}

#[test]
fn hitting_a_wall_ends_the_game() {
    let mut g = game(20, 20, at(19, 5), Food { position: at(3, 15), points: 3 }, Vec::new());
    g.score = 4;
    g.update();
    assert!(g.game_over);
    assert_eq!(g.score, 4);
    assert_eq!(g.snake.head(), at(19, 5));
    assert_eq!(g.snake.len(), 1);
}

#[test]
fn eating_grows_scores_and_speeds_up() {
    let mut g = game(20, 20, at(5, 5), Food { position: at(6, 5), points: 4 }, vec![
        Obstacle::new(at(9, 9)),
    ]);
    g.score = 10;
    g.speed_level = 3;
    g.update();
    assert!(!g.game_over);
    assert_eq!(g.score, 14);
    assert_eq!(g.speed_level, 4);
    assert_eq!(g.snake.len(), 2);
    assert_eq!(g.snake.head(), at(6, 5));
    assert_eq!(g.snake.segment(1), Some(at(5, 5)));
    assert!(g.food.points >= 1 && g.food.points <= 5);
    assert!(g.food.position.x < 20);
    assert!(g.food.position.y >= 2 && g.food.position.y < 20);
    assert!(!g.snake.occupies(g.food.position));
    assert!(!any_at(&g.obstacles, g.food.position));
}

#[test]
fn each_worth_is_added_to_the_score() {
    for points in 1..=5u32 {
        let mut g = game(20, 20, at(5, 5), Food { position: at(6, 5), points }, Vec::new());
        g.score = 100;
        assert_eq!(g.advance(), Tick::Ate);
        assert_eq!(g.score, 100 + points);
        assert_eq!(g.snake.len(), 2);
        assert_eq!(g.speed_level, 2);
        assert_eq!(g.food, Food { position: at(6, 5), points });
    }
}

#[test]
fn moving_on_keeps_the_length() {
    let mut g = game(20, 20, at(5, 5), Food { position: at(6, 5), points: 2 }, Vec::new());
    g.update();
    assert_eq!(g.snake.len(), 2);
    g.food = Food { position: at(0, 2), points: 2 };
    g.update();
    assert_eq!(g.snake.len(), 2);
    assert_eq!(g.snake.head(), at(7, 5));
    assert_eq!(g.snake.segment(1), Some(at(6, 5)));
    assert_eq!(g.score, 2);
    g.snake.change_direction(Direction::Down);
    assert_eq!(g.advance(), Tick::Moved);
    assert_eq!(g.snake.len(), 2);
    assert_eq!(g.snake.head(), at(7, 6));
    assert_eq!(g.snake.segment(1), Some(at(7, 5)));
}

#[test]
fn advance_reports_a_blocked_snake() {
    let mut g = game(20, 20, at(19, 5), Food { position: at(3, 15), points: 3 }, Vec::new());
    assert_eq!(g.advance(), Tick::Blocked);
    assert!(g.game_over);
    assert_eq!(g.snake.len(), 1);
}

#[test]
fn eating_the_last_cell_ends_the_game() {
    let mut g = game(2, 3, at(0, 2), Food { position: at(1, 2), points: 5 }, Vec::new());
    g.update();
    assert!(g.game_over);
    assert_eq!(g.score, 5);
    assert_eq!(g.speed_level, 2);
    assert_eq!(g.snake.len(), 2);
    assert_eq!(g.food, Food { position: at(1, 2), points: 5 });
}

#[test]
fn update_of_a_finished_game_keeps_it_finished() {
    let mut g = game(20, 20, at(5, 5), Food { position: at(3, 15), points: 3 }, Vec::new());
    g.game_over = true;
    g.update();
    assert!(g.game_over);
    assert_eq!(g.snake.head(), at(6, 5));
}

#[test]
fn interval_by_speed_level() {
    assert_eq!(at_level(1).get_update_interval(), 200);
    assert_eq!(at_level(2).get_update_interval(), 185);
    assert_eq!(at_level(3).get_update_interval(), 170);
    assert_eq!(at_level(10).get_update_interval(), 65);
    assert_eq!(at_level(11).get_update_interval(), 50);
    assert_eq!(at_level(12).get_update_interval(), 50);
    assert_eq!(at_level(20).get_update_interval(), 50);
    assert_eq!(at_level(u32::MAX).get_update_interval(), 50);
}

#[test]
fn interval_never_rises_and_has_a_floor() {
    let mut last = at_level(1).get_update_interval();
    for level in 2..200u32 {
        let now = at_level(level).get_update_interval();
        assert!(now <= last);
        assert!(now >= 50);
        last = now;
    }
}

#[test]
fn tick_is_due_once_the_interval_has_passed() {
    let g = at_level(2);
    assert!(!g.is_tick_due(0));
    assert!(!g.is_tick_due(184));
    assert!(g.is_tick_due(185));
    assert!(g.is_tick_due(1000));
}

fn check_fresh(g: &Game, width: u16, height: u16) {
    let start = at(width / 2, height / 2);
    assert_eq!(g.width, width);
    assert_eq!(g.height, height);
    assert_eq!(g.score, 0);
    assert_eq!(g.speed_level, 1);
    assert!(!g.game_over);
    assert_eq!(g.snake.len(), 1);
    assert_eq!(g.snake.head(), start);
    assert_eq!(g.snake.direction(), Direction::Right);
    assert!(g.obstacles.len() >= 5 && g.obstacles.len() <= 8);
    for o in &g.obstacles {
        assert!(o.position.x < width);
        assert!(o.position.y >= 2 && o.position.y < height);
        assert!(is_outside_keep_out(o.position, start));
        assert_ne!(o.position, start);
    }
    assert!(g.food.points >= 1 && g.food.points <= 5);
    assert!(g.food.position.x < width);
    assert!(g.food.position.y >= 2 && g.food.position.y < height);
    assert_ne!(g.food.position, start);
    assert!(!any_at(&g.obstacles, g.food.position));
}

#[test]
fn new_game_is_fresh() {
    for _ in 0..50 {
        let g = Game::new(20, 18);
        assert!(g.is_some());
        let g = g.unwrap();
        check_fresh(&g, 20, 18);
        assert_eq!(g.snake.head(), at(10, 9));
    }
}

#[test]
fn new_game_needs_room_for_obstacles() {
    assert!(Game::new(5, 5).is_none());
    assert!(Game::new(0, 0).is_none());
    assert!(Game::new(3, 3).is_none());
    assert!(Game::new(40, 2).is_none());
}

#[test]
fn new_game_on_the_smallest_grids() {
    for _ in 0..20 {
        check_fresh(&Game::new(6, 3).unwrap(), 6, 3);
        check_fresh(&Game::new(1, 7).unwrap(), 1, 7);
        check_fresh(&Game::new(5, 7).unwrap(), 5, 7);
        check_fresh(&Game::new(65535, 65535).unwrap(), 65535, 65535);
    }
    assert!(Game::new(5, 6).is_none());
    assert!(Game::new(1, 6).is_none());
    assert!(Game::new(6, 2).is_none());
    assert!(Game::new(0, 7).is_none());
    assert!(Game::new(65535, 2).is_none());
}

#[test]
fn new_game_on_a_narrow_grid() {
    // One row of seven cells: the outer two are open to obstacles, the four
    // beside the start are left for the food.
    for _ in 0..50 {
        let g = Game::new(7, 3).unwrap();
        assert_eq!(g.snake.head(), at(3, 1));
        for o in &g.obstacles {
            assert!(o.position == at(0, 2) || o.position == at(6, 2));
        }
        assert!(g.food.position.y == 2);
        assert!(!any_at(&g.obstacles, g.food.position));
    }
}

#[test]
fn restart_resets_the_game() {
    let mut g = Game::new(30, 20).unwrap();
    g.score = 42;
    g.speed_level = 9;
    g.game_over = true;
    g.snake.change_direction(Direction::Down);
    assert!(g.snake.move_snake(30, 20));
    assert!(g.snake.move_snake(30, 20));
    assert!(g.restart());
    check_fresh(&g, 30, 20);
    assert_eq!(g.snake.head(), at(15, 10));
}

#[test]
fn restart_without_room_changes_nothing() {
    let mut g = game(5, 5, at(2, 2), Food { position: at(0, 2), points: 2 }, Vec::new());
    g.score = 3;
    g.game_over = true;
    assert!(!g.restart());
    assert_eq!(g.score, 3);
    assert!(g.game_over);
    assert_eq!(g.food, Food { position: at(0, 2), points: 2 });
    assert_eq!(g.snake.head(), at(2, 2));
}

#[test]
fn keys_are_bound() {
    assert_eq!(classify(KeyPress::Char('w')), Key::MoveUp);
    assert_eq!(classify(KeyPress::Char('W')), Key::MoveUp);
    assert_eq!(classify(KeyPress::Up), Key::MoveUp);
    assert_eq!(classify(KeyPress::Char('s')), Key::MoveDown);
    assert_eq!(classify(KeyPress::Char('S')), Key::MoveDown);
    assert_eq!(classify(KeyPress::Down), Key::MoveDown);
    assert_eq!(classify(KeyPress::Char('a')), Key::MoveLeft);
    assert_eq!(classify(KeyPress::Char('A')), Key::MoveLeft);
    assert_eq!(classify(KeyPress::Left), Key::MoveLeft);
    assert_eq!(classify(KeyPress::Char('d')), Key::MoveRight);
    assert_eq!(classify(KeyPress::Char('D')), Key::MoveRight);
    assert_eq!(classify(KeyPress::Right), Key::MoveRight);
    assert_eq!(classify(KeyPress::Char('q')), Key::Quit);
    assert_eq!(classify(KeyPress::Char('Q')), Key::Quit);
    assert_eq!(classify(KeyPress::Esc), Key::Quit);
    assert_eq!(classify(KeyPress::Char('r')), Key::Restart);
    assert_eq!(classify(KeyPress::Char('R')), Key::Restart);
    assert_eq!(classify(KeyPress::Char('x')), Key::Other);
    assert_eq!(classify(KeyPress::Char(' ')), Key::Other);
    assert_eq!(classify(KeyPress::Other), Key::Other);
}

#[test]
fn move_keys_turn_a_running_snake() {
    let mut g = game(20, 20, at(5, 5), Food { position: at(3, 15), points: 3 }, Vec::new());
    assert!(g.handle_key(Key::MoveUp));
    assert_eq!(g.snake.direction(), Direction::Up);
    assert!(g.handle_key(Key::MoveDown));
    assert_eq!(g.snake.direction(), Direction::Up);
    assert!(g.handle_key(Key::MoveLeft));
    assert_eq!(g.snake.direction(), Direction::Left);
    assert!(g.handle_key(Key::MoveDown));
    assert_eq!(g.snake.direction(), Direction::Down);
    assert!(g.handle_key(Key::MoveRight));
    assert_eq!(g.snake.direction(), Direction::Right);
    assert!(g.handle_key(Key::Other));
    assert_eq!(g.snake.direction(), Direction::Right);
    assert_eq!(g.snake.head(), at(5, 5));
    assert_eq!(g.score, 0);
}

#[test]
fn quit_ends_the_program_in_either_state() {
    let mut g = game(20, 20, at(5, 5), Food { position: at(3, 15), points: 3 }, Vec::new());
    assert!(!g.handle_key(Key::Quit));
    assert!(!g.game_over);
    g.game_over = true;
    g.score = 9;
    assert!(!g.handle_key(Key::Quit));
    assert!(g.game_over);
    assert_eq!(g.score, 9);
}

#[test]
fn restart_key_counts_only_when_the_game_is_over() {
    let mut g = game(20, 20, at(5, 5), Food { position: at(3, 15), points: 3 }, Vec::new());
    g.score = 9;
    assert!(g.handle_key(Key::Restart));
    assert_eq!(g.score, 9);
    assert_eq!(g.snake.head(), at(5, 5));
    assert!(g.obstacles.is_empty());
    g.game_over = true;
    assert!(g.handle_key(Key::MoveUp));
    assert_eq!(g.snake.direction(), Direction::Right);
    assert!(g.handle_key(Key::Restart));
    check_fresh(&g, 20, 20);
}
