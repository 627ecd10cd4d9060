use snake::Direction;

const ALL: [Direction; 5] =
    [Direction::Still, Direction::Up, Direction::Left, Direction::Down, Direction::Right];

#[test]
fn opposite_of_each_direction() {
    assert_eq!(Direction::Still.opposite(), Direction::Still);
    assert_eq!(Direction::Up.opposite(), Direction::Down);
    assert_eq!(Direction::Down.opposite(), Direction::Up);
    assert_eq!(Direction::Left.opposite(), Direction::Right);
    assert_eq!(Direction::Right.opposite(), Direction::Left);
}

#[test]
fn opposite_twice_is_identity() {
    for d in ALL {
        assert_eq!(d.opposite().opposite(), d);
    }
}

#[test]
fn only_still_is_its_own_opposite() {
    for d in ALL {
        assert_eq!(d.opposite() == d, d == Direction::Still);
    }
}

#[test]
fn not_operator_is_opposite() {
    for d in ALL {
        assert_eq!(!d, d.opposite());
    }
    assert_eq!(!Direction::Up, Direction::Down);
    assert_eq!(!!Direction::Left, Direction::Left);
}
