use snake_core::direction::{apply_key, InputKey, SnakeDirection};
use snake_core::fruit::Fruit;
use snake_core::game::Game;
use snake_core::grid::{GridPosition, GRID_SIZE};
use snake_core::snake::Snake;

fn pos(x: i32, y: i32) -> GridPosition {
    GridPosition { x, y }
}

fn snake_of(cells: Vec<(i32, i32)>, direction: SnakeDirection) -> Snake {
    let mut body = Vec::new();
    for (x, y) in cells {
        body.push(pos(x, y));
    }
    Snake { body, direction }
}

fn game_of(cells: Vec<(i32, i32)>, direction: SnakeDirection, fruit: (i32, i32)) -> Game {
    Game {
        snake: snake_of(cells, direction),
        fruits: vec![Fruit { pos: pos(fruit.0, fruit.1) }],
        end_game: false,
    }
}

#[test]
fn direction_reversal_is_ignored() {
    assert_eq!(
        apply_key(SnakeDirection::Right, InputKey::Left),
        SnakeDirection::Right
    );
    assert_eq!(
        apply_key(SnakeDirection::Left, InputKey::Right),
        SnakeDirection::Left
    );
    assert_eq!(
        apply_key(SnakeDirection::Up, InputKey::Down),
        SnakeDirection::Up
    );
    assert_eq!(
        apply_key(SnakeDirection::Down, InputKey::Up),
        SnakeDirection::Down
    );
}

#[test]
fn direction_turn_is_taken() {
    assert_eq!(
        apply_key(SnakeDirection::Right, InputKey::Up),
        SnakeDirection::Up
    );
    assert_eq!(
        apply_key(SnakeDirection::Right, InputKey::Down),
        SnakeDirection::Down
    );
    assert_eq!(
        apply_key(SnakeDirection::Up, InputKey::Left),
        SnakeDirection::Left
    );
    assert_eq!(
        apply_key(SnakeDirection::Down, InputKey::Right),
        SnakeDirection::Right
    );
}

#[test]
fn direction_other_key_is_ignored() {
    assert_eq!(
        apply_key(SnakeDirection::Up, InputKey::Other),
        SnakeDirection::Up
    );
}

#[test]
fn movement_one_tick() {
    let mut snake = snake_of(vec![(5, 5), (5, 5)], SnakeDirection::Right);
    snake.update();
    assert_eq!(snake.body.len(), 2);
    assert_eq!(snake.body[0], pos(6, 5));
    assert_eq!(snake.body[1], pos(5, 5));
}

#[test]
fn movement_each_heading() {
    let mut snake = snake_of(vec![(5, 5), (4, 5)], SnakeDirection::Left);
    snake.update();
    assert_eq!(snake.body[0], pos(4, 5));

    let mut snake = snake_of(vec![(5, 5), (5, 6)], SnakeDirection::Up);
    snake.update();
    assert_eq!(snake.body[0], pos(5, 4));

    let mut snake = snake_of(vec![(5, 5), (5, 4)], SnakeDirection::Down);
    snake.update();
    assert_eq!(snake.body[0], pos(5, 6));
}

#[test]
fn movement_wraps_right_edge() {
    let mut snake = snake_of(vec![(9, 5), (8, 5)], SnakeDirection::Right);
    snake.update();
    assert_eq!(snake.body[0], pos(0, 5));
    assert_eq!(snake.body[1], pos(9, 5));
}

#[test]
fn movement_wraps_all_edges() {
    let mut snake = snake_of(vec![(0, 5), (1, 5)], SnakeDirection::Left);
    snake.update();
    assert_eq!(snake.body[0], pos(9, 5));

    let mut snake = snake_of(vec![(5, 0), (5, 1)], SnakeDirection::Up);
    snake.update();
    assert_eq!(snake.body[0], pos(5, 9));

    let mut snake = snake_of(vec![(5, 9), (5, 8)], SnakeDirection::Down);
    snake.update();
    assert_eq!(snake.body[0], pos(5, 0));
}

#[test]
fn collision_head_revisits_segment() {
    let snake = snake_of(
        vec![(3, 3), (4, 3), (5, 3), (3, 3)],
        SnakeDirection::Right,
    );
    assert!(snake.snake_died());
}

#[test]
fn collision_absent_on_distinct_cells() {
    let snake = snake_of(vec![(3, 3), (4, 3), (5, 3)], SnakeDirection::Right);
    assert!(!snake.snake_died());
}

#[test]
fn growth_duplicates_tail() {
    let mut snake = snake_of(vec![(6, 5), (5, 5)], SnakeDirection::Right);
    snake.increase_body_size();
    assert_eq!(snake.body.len(), 3);
    assert_eq!(snake.body[2], pos(5, 5));
}

#[test]
fn fruit_eaten_only_on_head_cell() {
    let snake = snake_of(vec![(6, 5), (5, 5)], SnakeDirection::Right);
    assert!(Fruit { pos: pos(6, 5) }.snake_can_eat(&snake));
    assert!(!Fruit { pos: pos(5, 5) }.snake_can_eat(&snake));
    assert!(!Fruit { pos: pos(6, 4) }.snake_can_eat(&snake));
}

#[test]
fn fruit_replacement_changes_both_axes() {
    let mut rng = rand::thread_rng();
    for &(x, y) in &[(5, 5), (0, 0), (9, 9), (0, 9)] {
        let mut fruit = Fruit { pos: pos(x, y) };
        for _ in 0..50 {
            let before = fruit.pos;
            fruit.set_rand_position(&mut rng);
            assert_ne!(fruit.pos.x, before.x);
            assert_ne!(fruit.pos.y, before.y);
            assert!(0 <= fruit.pos.x && fruit.pos.x < GRID_SIZE);
            assert!(0 <= fruit.pos.y && fruit.pos.y < GRID_SIZE);
        }
    }
}

#[test]
fn new_game_initial_state() {
    let game = Game::new();
    assert_eq!(game.snake.body, vec![pos(0, 0), pos(0, 0)]);
    assert_eq!(game.snake.direction, SnakeDirection::Right);
    assert_eq!(game.fruits.len(), 1);
    assert_eq!(game.fruits[0].pos, pos(5, 5));
    assert!(!game.end_game);
}

#[test]
fn tick_without_fruit_moves_only() {
    let mut game = game_of(vec![(5, 5), (4, 5)], SnakeDirection::Right, (0, 0));
    let mut rng = rand::thread_rng();
    game.update_event(&mut rng);
    assert_eq!(game.snake.body, vec![pos(6, 5), pos(5, 5)]);
    assert_eq!(game.fruits[0].pos, pos(0, 0));
    assert!(!game.end_game);
}

#[test]
fn tick_consumes_fruit_and_grows() {
    let mut game = game_of(vec![(5, 5), (4, 5)], SnakeDirection::Right, (6, 5));
    let mut rng = rand::thread_rng();
    game.update_event(&mut rng);
    assert_eq!(game.snake.body.len(), 3);
    assert_eq!(game.snake.body, vec![pos(6, 5), pos(5, 5), pos(5, 5)]);
    assert_ne!(game.fruits[0].pos.x, 6);
    assert_ne!(game.fruits[0].pos.y, 5);
    assert!(!game.end_game);
}

#[test]
fn tick_detects_self_collision() {
    // Heading up into its own body: the head moves onto the cell behind it.
    let mut game = game_of(
        vec![(5, 5), (5, 4), (6, 4), (6, 5), (5, 5)],
        SnakeDirection::Up,
        (0, 0),
    );
    let mut rng = rand::thread_rng();
    game.update_event(&mut rng);
    assert_eq!(game.snake.body[0], pos(5, 4));
    assert!(game.end_game);
}

#[test]
fn pressed_event_updates_heading_while_running() {
    let mut game = game_of(vec![(5, 5), (4, 5)], SnakeDirection::Right, (0, 0));
    game.pressed_event(InputKey::Left);
    assert_eq!(game.snake.direction, SnakeDirection::Right);
    game.pressed_event(InputKey::Up);
    assert_eq!(game.snake.direction, SnakeDirection::Up);
}

#[test]
fn render_snapshot_reads_state() {
    let game = game_of(vec![(5, 5), (4, 5)], SnakeDirection::Right, (2, 3));
    let (body, fruits, ended) = game.render_snapshot();
    assert_eq!(body, vec![pos(5, 5), pos(4, 5)]);
    assert_eq!(fruits, vec![pos(2, 3)]);
    assert!(!ended);
}

#[test]
fn render_snapshot_idempotent_between_ticks() {
    let game = game_of(vec![(5, 5), (4, 5)], SnakeDirection::Right, (2, 3));
    let first = game.render_snapshot();
    let second = game.render_snapshot();
    assert_eq!(first, second);
}

#[test]
fn ended_game_ignores_all_events() {
    let mut game = game_of(vec![(5, 5), (4, 5)], SnakeDirection::Right, (2, 3));
    game.end_game = true;
    let before = game.render_snapshot();
    let mut rng = rand::thread_rng();
    for _ in 0..5 {
        game.update_event(&mut rng);
        game.pressed_event(InputKey::Up);
        game.pressed_event(InputKey::Left);
    }
    let after = game.render_snapshot();
    assert_eq!(before, after);
    assert_eq!(game.snake.direction, SnakeDirection::Right);
    assert!(game.end_game);
}

#[test]
fn collision_then_terminal_state_is_stable() {
    let mut game = game_of(
        vec![(5, 5), (5, 4), (6, 4), (6, 5), (5, 5)],
        SnakeDirection::Up,
        (0, 0),
    );
    let mut rng = rand::thread_rng();
    game.update_event(&mut rng);
    assert!(game.end_game);
    let body_after = game.snake.body.clone();
    let fruit_after = game.fruits[0].pos;
    game.update_event(&mut rng);
    game.pressed_event(InputKey::Down);
    assert_eq!(game.snake.body, body_after);
    assert_eq!(game.fruits[0].pos, fruit_after);
    assert!(game.end_game);
}

#[test]
fn consumed_fruit_grows_across_two_ticks() {
    // The duplicated tail cell offsets the next tick's tail drop as well:
    // length stays at 3 over the following tick.
    let mut game = game_of(vec![(5, 5), (4, 5)], SnakeDirection::Right, (6, 5));
    let mut rng = rand::thread_rng();
    game.update_event(&mut rng);
    assert_eq!(game.snake.body.len(), 3);
    // Move the fruit somewhere the snake is not about to eat it.
    game.fruits[0].pos = pos(0, 9);
    game.update_event(&mut rng);
    assert_eq!(game.snake.body, vec![pos(7, 5), pos(6, 5), pos(5, 5)]);
    assert!(!game.end_game);
}
