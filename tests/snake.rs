use snakey::component::{Direction, Food, Position, SnakeBody, SnakeHead, SnakeState};
use snakey::systems::{
    append_segment, despawn_all_bodies_and_food, despawn_food, gameover, movement_tick, snake_eating, snake_growth, snake_movement, snake_movement_input,
    spanw_food, spawn_food_at, spawn_snake, spawn_snake_body, Game, Grid, Movement, ARENA_HEIGHT,
    ARENA_WIDTH,
};

fn started() -> Game {
    let mut game = Game::new();
    spawn_snake(&mut game);
    game
}

fn cells(game: &Game) -> Vec<(i32, i32)> {
    game.snake.0.iter().map(|s| (s.position.x, s.position.y)).collect()
}

fn with_snake(head: (i32, i32), rest: &[(i32, i32)], direction: Direction) -> Game {
    let mut game = Game::new();
    let mut all = vec![head];
    all.extend_from_slice(rest);
    for (x, y) in all {
        let seg = spawn_snake_body(&mut game, Position { x, y });
        game.snake.0.push(seg);
    }
    game.head = SnakeHead { direction };
    game
}

#[test]
fn defaults() {
    assert_eq!(Position::default(), Position { x: 3, y: 3 });
    assert_eq!(Direction::default(), Direction::Up);
    assert_eq!(SnakeHead::default().direction, Direction::Up);
    let grid = Grid::new();
    assert_eq!((grid.width, grid.height), (ARENA_WIDTH, ARENA_HEIGHT));
    assert_eq!((ARENA_WIDTH, ARENA_HEIGHT), (10, 10));
}

#[test]
fn opposite_reverses_each_direction() {
    assert_eq!(Direction::Up.opposite(), Direction::Down);
    assert_eq!(Direction::Down.opposite(), Direction::Up);
    assert_eq!(Direction::Left.opposite(), Direction::Right);
    assert_eq!(Direction::Right.opposite(), Direction::Left);
}

#[test]
fn grid_contains_only_cells_inside() {
    let grid = Grid::new();
    assert!(grid.contains(Position { x: 0, y: 0 }));
    assert!(grid.contains(Position { x: 9, y: 9 }));
    assert!(!grid.contains(Position { x: 10, y: 5 }));
    assert!(!grid.contains(Position { x: 5, y: 10 }));
    assert!(!grid.contains(Position { x: -1, y: 5 }));
    assert!(!grid.contains(Position { x: 5, y: -1 }));
}

#[test]
fn spawn_snake_makes_head_and_body() {
    let game = started();
    assert_eq!(cells(&game), vec![(3, 3), (3, 2)]);
    assert_eq!(game.head.direction, Direction::Up);
    assert_ne!(game.snake.0[0].id, game.snake.0[1].id);
    assert!(game.food.is_empty());
}

#[test]
fn movement_up_shifts_body_onto_old_head() {
    let mut game = started();
    assert_eq!(snake_movement(&mut game), Movement::Moved);
    assert_eq!(cells(&game), vec![(3, 4), (3, 3)]);
    assert_eq!(game.last_tail.0, Some(Position { x: 3, y: 2 }));
}

#[test]
fn movement_follows_the_leader() {
    let mut game = with_snake((5, 5), &[(4, 5), (4, 4), (3, 4)], Direction::Down);
    let ids: Vec<u64> = game.snake.0.iter().map(|s| s.id).collect();
    assert_eq!(snake_movement(&mut game), Movement::Moved);
    assert_eq!(cells(&game), vec![(5, 4), (5, 5), (4, 5), (4, 4)]);
    assert_eq!(game.last_tail.0, Some(Position { x: 3, y: 4 }));
    let after: Vec<u64> = game.snake.0.iter().map(|s| s.id).collect();
    assert_eq!(ids, after);
}

#[test]
fn movement_in_each_direction() {
    for (dir, expected) in [
        (Direction::Up, (4, 5)),
        (Direction::Down, (4, 3)),
        (Direction::Left, (3, 4)),
        (Direction::Right, (5, 4)),
    ] {
        let mut game = with_snake((4, 4), &[], dir);
        assert_eq!(snake_movement(&mut game), Movement::Moved);
        assert_eq!(cells(&game), vec![expected]);
    }
}

#[test]
fn movement_without_snake_does_nothing() {
    let mut game = Game::new();
    assert_eq!(snake_movement(&mut game), Movement::NoHead);
    assert!(game.snake.0.is_empty());
    assert_eq!(game.last_tail.0, None);
    assert_eq!(movement_tick(&mut game), Movement::NoHead);
}

#[test]
fn leaving_right_edge_ends_game_then_resets() {
    let mut game = with_snake((9, 5), &[], Direction::Right);
    assert_eq!(snake_movement(&mut game), Movement::OutOfBounds);
    assert_eq!(cells(&game), vec![(10, 5)]);
    gameover(&mut game, true);
    assert_eq!(cells(&game), vec![(3, 3), (3, 2)]);
    assert_eq!(game.head.direction, Direction::Up);
}

#[test]
fn leaving_each_edge_ends_game() {
    for (head, dir) in [
        ((0, 5), Direction::Left),
        ((5, 0), Direction::Down),
        ((5, 9), Direction::Up),
        ((9, 5), Direction::Right),
    ] {
        let mut game = with_snake(head, &[], dir);
        assert_eq!(snake_movement(&mut game), Movement::OutOfBounds);
    }
    let mut game = with_snake((0, 0), &[], Direction::Up);
    assert_eq!(snake_movement(&mut game), Movement::Moved);
}

#[test]
fn tick_out_of_bounds_resets_everything() {
    let mut game = with_snake((9, 5), &[(8, 5), (7, 5)], Direction::Right);
    spawn_food_at(&mut game, Position { x: 1, y: 1 });
    spawn_food_at(&mut game, Position { x: 2, y: 2 });
    assert_eq!(movement_tick(&mut game), Movement::OutOfBounds);
    assert!(game.food.is_empty());
    assert_eq!(cells(&game), vec![(3, 3), (3, 2)]);
    assert_eq!(game.head.direction, Direction::Up);
}

#[test]
fn reversal_is_ignored_and_other_turns_taken() {
    let all = [Direction::Up, Direction::Down, Direction::Left, Direction::Right];
    for d in all {
        for e in all {
            let mut game = started();
            game.head = SnakeHead { direction: d };
            snake_movement_input(&mut game, Some(e));
            if e == d.opposite() {
                assert_eq!(game.head.direction, d);
            } else {
                assert_eq!(game.head.direction, e);
            }
        }
        let mut game = started();
        game.head = SnakeHead { direction: d };
        snake_movement_input(&mut game, None);
        assert_eq!(game.head.direction, d);
    }
}

#[test]
fn eating_then_growth_at_old_tail() {
    let mut game = started();
    let id = spawn_food_at(&mut game, Position { x: 3, y: 4 });
    assert_eq!(snake_movement(&mut game), Movement::Moved);
    assert_eq!(snake_eating(&mut game), 1);
    assert!(game.food.iter().all(|f| f.id != id));
    snake_growth(&mut game, 1);
    assert_eq!(cells(&game), vec![(3, 4), (3, 3), (3, 2)]);
}

#[test]
fn tick_eats_and_grows() {
    let mut game = started();
    spawn_food_at(&mut game, Position { x: 3, y: 4 });
    spawn_food_at(&mut game, Position { x: 7, y: 7 });
    assert_eq!(movement_tick(&mut game), Movement::Moved);
    assert_eq!(cells(&game), vec![(3, 4), (3, 3), (3, 2)]);
    assert_eq!(game.food.len(), 1);
    assert_eq!(game.food[0].position, Position { x: 7, y: 7 });
}

#[test]
fn simultaneous_food_gives_one_segment_each() {
    let mut game = started();
    spawn_food_at(&mut game, Position { x: 3, y: 4 });
    spawn_food_at(&mut game, Position { x: 5, y: 5 });
    spawn_food_at(&mut game, Position { x: 3, y: 4 });
    spawn_food_at(&mut game, Position { x: 3, y: 4 });
    assert_eq!(movement_tick(&mut game), Movement::Moved);
    assert_eq!(cells(&game), vec![(3, 4), (3, 3), (3, 2), (3, 2), (3, 2)]);
    assert_eq!(game.food.len(), 1);
    let mut ids: Vec<u64> = game.snake.0.iter().map(|s| s.id).collect();
    ids.sort();
    ids.dedup();
    assert_eq!(ids.len(), 5);
}

#[test]
fn eating_without_match_keeps_food() {
    let mut game = started();
    spawn_food_at(&mut game, Position { x: 0, y: 0 });
    assert_eq!(snake_eating(&mut game), 0);
    assert_eq!(game.food.len(), 1);
}

#[test]
fn growth_before_any_move_is_ignored() {
    let mut game = started();
    snake_growth(&mut game, 2);
    assert_eq!(cells(&game), vec![(3, 3), (3, 2)]);
}

#[test]
fn growth_of_zero_changes_nothing() {
    let mut game = started();
    snake_movement(&mut game);
    snake_growth(&mut game, 0);
    assert_eq!(cells(&game), vec![(3, 4), (3, 3)]);
}

#[test]
fn gameover_without_signal_keeps_game() {
    let mut game = started();
    spawn_food_at(&mut game, Position { x: 1, y: 2 });
    gameover(&mut game, false);
    assert_eq!(cells(&game), vec![(3, 3), (3, 2)]);
    assert_eq!(game.food.len(), 1);
}

#[test]
fn gameover_clears_food_and_body() {
    let mut game = with_snake((6, 6), &[(6, 5), (6, 4), (6, 3)], Direction::Left);
    spawn_food_at(&mut game, Position { x: 1, y: 2 });
    gameover(&mut game, true);
    assert!(game.food.is_empty());
    assert_eq!(cells(&game), vec![(3, 3), (3, 2)]);
    assert_eq!(game.head.direction, Direction::Up);
}

#[test]
fn random_food_lands_inside_arena() {
    let mut game = started();
    for _ in 0..200 {
        let food: Food = spanw_food(&mut game);
        assert!(food.position.x >= 0 && food.position.x < 10);
        assert!(food.position.y >= 0 && food.position.y < 10);
        assert_eq!(game.food.last(), Some(&food));
    }
    assert_eq!(game.food.len(), 200);
    let mut small = started();
    small.grid = Grid { width: 1, height: 1 };
    let food = spanw_food(&mut small);
    assert_eq!(food.position, Position { x: 0, y: 0 });
}

#[test]
fn spawned_ids_are_fresh() {
    let mut game = Game::new();
    let a: SnakeBody = spawn_snake_body(&mut game, Position { x: 1, y: 1 });
    let b = spawn_food_at(&mut game, Position { x: 2, y: 2 });
    assert_ne!(a.id, b);
    let _state: SnakeState = game.snake.clone();
}

#[test]
fn append_segment_grows_by_one_at_the_end() {
    let mut game = started();
    let seg = append_segment(&mut game, Position { x: 8, y: 1 });
    assert_eq!(cells(&game), vec![(3, 3), (3, 2), (8, 1)]);
    assert_eq!(game.snake.0[2], seg);
    append_segment(&mut game, Position { x: 8, y: 1 });
    assert_eq!(game.snake.0.len(), 4);
}

#[test]
fn despawn_food_removes_only_that_id() {
    let mut game = started();
    let a = spawn_food_at(&mut game, Position { x: 1, y: 1 });
    let b = spawn_food_at(&mut game, Position { x: 1, y: 1 });
    let c = spawn_food_at(&mut game, Position { x: 2, y: 2 });
    despawn_food(&mut game, b);
    let left: Vec<u64> = game.food.iter().map(|f| f.id).collect();
    assert_eq!(left, vec![a, c]);
    despawn_food(&mut game, b);
    assert_eq!(game.food.len(), 2);
}

#[test]
fn despawn_all_leaves_nothing() {
    let mut game = started();
    spawn_food_at(&mut game, Position { x: 1, y: 1 });
    despawn_all_bodies_and_food(&mut game);
    assert!(game.snake.0.is_empty());
    assert!(game.food.is_empty());
    assert_eq!(snake_movement(&mut game), Movement::NoHead);
}
