use snake_sim::board::board_tiles;
use snake_sim::direction::Direction;
use snake_sim::direction::InputState;
use snake_sim::geometry::Vec2i;
use snake_sim::state::GameState;
use snake_sim::state::spawn_snake;

fn p(x: i32, y: i32) -> Vec2i {
    Vec2i { x, y }
}

fn no_keys() -> InputState {
    InputState { left: false, right: false, down: false, up: false }
}

#[test]
fn end_to_end_spawn_move_eat_grow() {
    let tiles = board_tiles();
    let mut s = spawn_snake();
    assert_eq!(s.segments, vec![p(20, 20), p(-20, 20)]);
    assert_eq!(s.direction, Direction::Right);

    // one tick with no input: the snake advances one tile to the right
    s.tick(no_keys(), &tiles);
    assert_eq!(s.segments, vec![p(60, 20), p(20, 20)]);
    assert!(!s.game_over_pending);

    // put the food directly in the snake's path; the next tick eats it and
    // the same tick's growth step appends the third segment
    s.food = Some(p(100, 20));
    s.tick(no_keys(), &tiles);
    assert_eq!(s.segments, vec![p(100, 20), p(60, 20), p(20, 20)]);
    assert!(!s.growth_pending);
}

#[test]
fn tick_spawns_food_on_a_clear_tile() {
    let tiles = board_tiles();
    let mut s = spawn_snake();
    s.tick(no_keys(), &tiles);
    // the board has plenty of free tiles, but whichever tile was drawn, a
    // spawned food sits on a tile center and clear of the snake
    if let Some(f) = s.food {
        assert!(tiles.iter().any(|t| t.position == f));
        for seg in &s.segments {
            assert!((f.x - seg.x).abs() > 35 || (f.y - seg.y).abs() > 35);
        }
    }
}

#[test]
fn reversal_input_is_ignored_by_the_tick() {
    let tiles = board_tiles();
    let mut s = spawn_snake();
    let left = InputState { left: true, right: false, down: false, up: false };
    s.tick(left, &tiles);
    assert_eq!(s.direction, Direction::Right);
    assert_eq!(s.segments, vec![p(60, 20), p(20, 20)]);
}

#[test]
fn turn_takes_effect_in_the_same_tick() {
    let tiles = board_tiles();
    let mut s = spawn_snake();
    let up = InputState { left: false, right: false, down: false, up: true };
    s.tick(up, &tiles);
    assert_eq!(s.direction, Direction::Up);
    assert_eq!(s.segments, vec![p(20, 60), p(20, 20)]);
}

#[test]
fn wall_hit_resets_one_tick_later() {
    let tiles = board_tiles();
    let mut s = GameState {
        segments: vec![p(300, 20), p(260, 20)],
        direction: Direction::Right,
        head_size: p(40, 40),
        last_tail: p(220, 20),
        food: None,
        growth_pending: false,
        game_over_pending: false,
    };
    // the head crosses the board edge: the collision step raises game over
    // and neutralizes the head, but the snake still stands this tick
    s.tick(no_keys(), &tiles);
    assert_eq!(s.segments[0], p(340, 20));
    assert!(s.game_over_pending);
    assert_eq!(s.head_size, p(0, 0));
    // the next tick's game-over step performs the full reset
    s.tick(no_keys(), &tiles);
    assert_eq!(s.segments, vec![p(20, 20), p(-20, 20)]);
    assert_eq!(s.direction, Direction::Right);
    assert_eq!(s.head_size, p(40, 40));
    assert!(!s.game_over_pending);
}

#[test]
fn reset_discards_length_and_food_from_any_state() {
    let tiles = board_tiles();
    let mut s = GameState {
        segments: vec![p(140, 20), p(100, 20), p(60, 20), p(20, 20), p(-20, 20)],
        direction: Direction::Right,
        head_size: p(40, 40),
        last_tail: p(-60, 20),
        food: Some(p(220, 180)),
        growth_pending: false,
        game_over_pending: true,
    };
    s.tick(no_keys(), &tiles);
    // movement runs first, then the pending game over resets everything;
    // afterwards the tick's own food step may spawn a fresh food
    assert_eq!(s.segments, vec![p(20, 20), p(-20, 20)]);
    assert_eq!(s.direction, Direction::Right);
    assert!(!s.game_over_pending);
}

#[test]
fn snake_never_shrinks_while_running() {
    let tiles = board_tiles();
    let mut s = spawn_snake();
    let mut len = s.segments.len();
    for turn in 0..12 {
        let input = if turn % 4 == 0 {
            InputState { left: false, right: false, down: false, up: true }
        } else {
            no_keys()
        };
        s.tick(input, &tiles);
        if s.game_over_pending || s.segments.len() == 2 && len > 2 {
            break;
        }
        assert!(s.segments.len() >= len);
        len = s.segments.len();
    }
}
