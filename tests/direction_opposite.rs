use nav::{Direction, Transform, ALL_DIRECTIONS};

#[test]
fn test_direction_neg() {
    assert_eq!(-Direction::North, Direction::South);
    assert_eq!(-Direction::East, Direction::West);
    assert_eq!(-Direction::South, Direction::North);
    assert_eq!(-Direction::West, Direction::East);
}

#[test]
fn negate_is_an_involution_and_the_half_turn() {
    for d in ALL_DIRECTIONS {
        assert_eq!(d.negate().negate(), d);
        assert_eq!(d.negate(), d.apply(Transform::Rotate180));
    }
}
