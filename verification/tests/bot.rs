use biobots::bot::Direction;
use biobots::Point;

const ALL: [Direction; 8] = [
    Direction::N,
    Direction::NW,
    Direction::W,
    Direction::SW,
    Direction::S,
    Direction::SE,
    Direction::E,
    Direction::NE,
];

#[test]
fn codes_and_directions_round_trip() {
    for direction in ALL {
        assert_eq!(
            Direction::try_from_code(direction.code()),
            Ok(direction)
        );
    }
    assert_eq!(Direction::try_from_code(8), Err(()));
    assert_eq!(Direction::try_from_code(9), Err(()));
    assert_eq!(Direction::try_from_code(u32::MAX), Err(()));
}

#[test]
fn north_is_the_identity_of_addition() {
    for direction in ALL {
        assert_eq!(Direction::N.add(direction), direction);
        assert_eq!(direction.add(Direction::N), direction);
    }
}

#[test]
fn addition_is_associative_on_samples() {
    for a in ALL {
        for b in ALL {
            for c in ALL {
                assert_eq!(a.add(b).add(c), a.add(b.add(c)));
            }
        }
    }
}

#[test]
fn doubling_a_direction_doubles_its_code() {
    for direction in ALL {
        let doubled = direction.add(direction);
        assert_eq!(doubled.code(), (2 * direction.code()) % 8);
    }
    assert_eq!(Direction::NW.add(Direction::NW), Direction::W);
    assert_eq!(Direction::SE.add(Direction::SE), Direction::W);
    assert_eq!(Direction::E.add(Direction::NE), Direction::SE);
}

#[test]
fn unit_vectors_round_trip() {
    for direction in ALL {
        assert_eq!(
            Direction::try_from_vector(direction.to_unit_vector()),
            Ok(direction)
        );
    }
}

#[test]
fn unit_vectors_point_as_documented() {
    assert_eq!(Direction::N.to_unit_vector(), Point { x: 0, y: -1 });
    assert_eq!(Direction::NE.to_unit_vector(), Point { x: 1, y: -1 });
    assert_eq!(Direction::E.to_unit_vector(), Point { x: 1, y: 0 });
    assert_eq!(Direction::SE.to_unit_vector(), Point { x: 1, y: 1 });
    assert_eq!(Direction::S.to_unit_vector(), Point { x: 0, y: 1 });
    assert_eq!(Direction::SW.to_unit_vector(), Point { x: -1, y: 1 });
    assert_eq!(Direction::W.to_unit_vector(), Point { x: -1, y: 0 });
    assert_eq!(Direction::NW.to_unit_vector(), Point { x: -1, y: -1 });
}

#[test]
fn non_canonical_vectors_fail_classification() {
    assert_eq!(
        Direction::try_from_vector(Point { x: 0, y: 0 }),
        Err(())
    );
    assert_eq!(
        Direction::try_from_vector(Point { x: 2, y: 1 }),
        Err(())
    );
    assert_eq!(
        Direction::try_from_vector(Point { x: 0, y: -5 }),
        Err(())
    );
    assert_eq!(
        Direction::try_from_vector(Point { x: -3, y: 3 }),
        Err(())
    );
}

#[test]
fn change_rotation_rotates_by_the_classified_delta() {
    assert_eq!(
        Direction::change_rotation(Direction::N, Point { x: 1, y: 1 }),
        Direction::SE
    );
    assert_eq!(
        Direction::change_rotation(Direction::W, Point { x: 0, y: -1 }),
        Direction::W.add(Direction::N)
    );
    assert_eq!(
        Direction::change_rotation(Direction::SE, Point { x: -1, y: 0 }),
        Direction::SE.add(Direction::W)
    );
}

#[test]
fn change_rotation_keeps_the_direction_on_classification_failure() {
    assert_eq!(
        Direction::change_rotation(Direction::E, Point { x: 0, y: 0 }),
        Direction::E
    );
    assert_eq!(
        Direction::change_rotation(Direction::SW, Point { x: 2, y: 1 }),
        Direction::SW
    );
}

#[test]
fn directions_have_english_names() {
    assert_eq!(Direction::N.name(), "North");
    assert_eq!(Direction::NW.name(), "North-West");
    assert_eq!(Direction::W.name(), "West");
    assert_eq!(Direction::SW.name(), "South-West");
    assert_eq!(Direction::S.name(), "South");
    assert_eq!(Direction::SE.name(), "South-East");
    assert_eq!(Direction::E.name(), "East");
    assert_eq!(Direction::NE.name(), "North-East");
}
