use motor_control::direction::{Direction, Invert};

const ALL: [Direction; 3] = [Direction::Forward, Direction::Backward, Direction::Stopped];

#[test]
fn invert_swaps_forward_and_backward() {
    assert_eq!(Direction::Forward.invert(), Direction::Backward);
    assert_eq!(Direction::Backward.invert(), Direction::Forward);
}

#[test]
fn invert_keeps_stopped() {
    assert_eq!(Direction::Stopped.invert(), Direction::Stopped);
}

#[test]
fn invert_twice_gives_the_direction_back() {
    for d in ALL {
        assert_eq!(d.invert().invert(), d);
    }
}

#[test]
fn invert_never_returns_its_argument_for_a_moving_motor() {
    assert_ne!(Direction::Forward.invert(), Direction::Forward);
    assert_ne!(Direction::Backward.invert(), Direction::Backward);
}

#[test]
fn selector_one_is_forward() {
    assert_eq!(Direction::from(1u8), Direction::Forward);
}

#[test]
fn selector_two_is_backward() {
    assert_eq!(Direction::from(2u8), Direction::Backward);
}

#[test]
fn selector_zero_is_stopped() {
    assert_eq!(Direction::from(0u8), Direction::Stopped);
}

#[test]
fn selectors_three_to_fifteen_are_stopped() {
    for raw in 3u8..=15 {
        assert_eq!(Direction::from(raw), Direction::Stopped, "selector {}", raw);
    }
}

#[test]
fn values_beyond_a_nibble_are_stopped() {
    for raw in 16u8..=255 {
        assert_eq!(Direction::from(raw), Direction::Stopped, "value {}", raw);
    }
}

#[test]
fn forward_and_backward_have_one_selector_each() {
    for raw in 0u8..=255 {
        let d = Direction::from(raw);
        assert_eq!(d == Direction::Forward, raw == 1);
        assert_eq!(d == Direction::Backward, raw == 2);
        assert_eq!(d == Direction::Stopped, raw != 1 && raw != 2);
    }
}

#[test]
fn into_agrees_with_from() {
    let d: Direction = 2u8.into();
    assert_eq!(d, Direction::Backward);
    let s: Direction = 9u8.into();
    assert_eq!(s, Direction::Stopped);
}
