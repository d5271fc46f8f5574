use snake_sim::direction::Direction;
use snake_sim::direction::InputState;
use snake_sim::direction::resolve_direction;

fn no_keys() -> InputState {
    InputState { left: false, right: false, down: false, up: false }
}

#[test]
fn opposite_pairs() {
    assert_eq!(Direction::Left.opposite(), Direction::Right);
    assert_eq!(Direction::Right.opposite(), Direction::Left);
    assert_eq!(Direction::Up.opposite(), Direction::Down);
    assert_eq!(Direction::Down.opposite(), Direction::Up);
}

#[test]
fn opposite_is_involutive() {
    for d in [Direction::Left, Direction::Right, Direction::Up, Direction::Down] {
        assert_eq!(d.opposite().opposite(), d);
    }
}

#[test]
fn no_key_keeps_heading() {
    assert_eq!(resolve_direction(Direction::Up, no_keys()), Direction::Up);
    assert_eq!(resolve_direction(Direction::Left, no_keys()), Direction::Left);
}

#[test]
fn reversal_is_rejected() {
    let left = InputState { left: true, ..no_keys() };
    let right = InputState { right: true, ..no_keys() };
    let down = InputState { down: true, ..no_keys() };
    let up = InputState { up: true, ..no_keys() };
    assert_eq!(resolve_direction(Direction::Right, left), Direction::Right);
    assert_eq!(resolve_direction(Direction::Left, right), Direction::Left);
    assert_eq!(resolve_direction(Direction::Up, down), Direction::Up);
    assert_eq!(resolve_direction(Direction::Down, up), Direction::Down);
}

#[test]
fn turns_are_taken() {
    let up = InputState { up: true, ..no_keys() };
    let down = InputState { down: true, ..no_keys() };
    assert_eq!(resolve_direction(Direction::Right, up), Direction::Up);
    assert_eq!(resolve_direction(Direction::Left, down), Direction::Down);
}

#[test]
fn key_priority_is_left_right_down_up() {
    let left_and_up = InputState { left: true, up: true, ..no_keys() };
    assert_eq!(resolve_direction(Direction::Up, left_and_up), Direction::Left);
    let right_and_down = InputState { right: true, down: true, ..no_keys() };
    assert_eq!(resolve_direction(Direction::Up, right_and_down), Direction::Right);
    let down_and_up = InputState { down: true, up: true, ..no_keys() };
    assert_eq!(resolve_direction(Direction::Right, down_and_up), Direction::Down);
}
