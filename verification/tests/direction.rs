use dragon_grid::action::{Action, MovementAction};
use dragon_grid::direction::Direction;

const ALL: [Direction; 4] = [Direction::Up, Direction::Down, Direction::Left, Direction::Right];

#[test]
fn four_left_turns_come_back() {
    for d in ALL {
        let mut e = d;
        for _ in 0..4 {
            e = e.process_action(MovementAction::TurnLeft);
        }
        assert_eq!(e, d);
    }
}

#[test]
fn four_right_turns_come_back() {
    for d in ALL {
        let mut e = d;
        for _ in 0..4 {
            e = e.process_action(MovementAction::TurnRight);
        }
        assert_eq!(e, d);
    }
}

#[test]
fn left_and_right_are_inverses() {
    for d in ALL {
        let l = d.process_action(MovementAction::TurnLeft);
        let r = d.process_action(MovementAction::TurnRight);
        assert_eq!(l.process_action(MovementAction::TurnRight), d);
        assert_eq!(r.process_action(MovementAction::TurnLeft), d);
        assert_ne!(l, d);
        assert_ne!(r, d);
        assert_ne!(l, r);
    }
}

#[test]
fn forwards_is_the_identity() {
    for d in ALL {
        assert_eq!(d.process_action(MovementAction::Forwards), d);
    }
}

#[test]
fn opposite_twice_is_the_identity() {
    for d in ALL {
        assert_eq!(d.opposite().opposite(), d);
        assert_ne!(d.opposite(), d);
    }
}

#[test]
fn left_turn_table() {
    assert_eq!(Direction::Up.process_action(MovementAction::TurnLeft), Direction::Left);
    assert_eq!(Direction::Left.process_action(MovementAction::TurnLeft), Direction::Down);
    assert_eq!(Direction::Down.process_action(MovementAction::TurnLeft), Direction::Right);
    assert_eq!(Direction::Right.process_action(MovementAction::TurnLeft), Direction::Up);
}

#[test]
fn right_turn_table() {
    assert_eq!(Direction::Up.process_action(MovementAction::TurnRight), Direction::Right);
    assert_eq!(Direction::Right.process_action(MovementAction::TurnRight), Direction::Down);
    assert_eq!(Direction::Down.process_action(MovementAction::TurnRight), Direction::Left);
    assert_eq!(Direction::Left.process_action(MovementAction::TurnRight), Direction::Up);
}

#[test]
fn delta_table() {
    assert_eq!(Direction::Up.delta(), (0, 1));
    assert_eq!(Direction::Down.delta(), (0, -1));
    assert_eq!(Direction::Left.delta(), (-1, 0));
    assert_eq!(Direction::Right.delta(), (1, 0));
}

#[test]
fn opposite_table() {
    assert_eq!(Direction::Up.opposite(), Direction::Down);
    assert_eq!(Direction::Down.opposite(), Direction::Up);
    assert_eq!(Direction::Left.opposite(), Direction::Right);
    assert_eq!(Direction::Right.opposite(), Direction::Left);
}

#[test]
fn opposite_negates_the_delta() {
    for d in ALL {
        let (dx, dy) = d.delta();
        assert_eq!(d.opposite().delta(), (-dx, -dy));
    }
}

#[test]
fn left_turn_rotates_the_delta_counterclockwise() {
    for d in ALL {
        let (dx, dy) = d.delta();
        assert_eq!(d.process_action(MovementAction::TurnLeft).delta(), (-dy, dx));
        assert_eq!(d.process_action(MovementAction::TurnRight).delta(), (dy, -dx));
    }
}

#[test]
fn actions_carry_their_movement() {
    assert_eq!(Action::MovementForwards.movement(), Some(MovementAction::Forwards));
    assert_eq!(Action::MovementTurnLeft.movement(), Some(MovementAction::TurnLeft));
    assert_eq!(Action::MovementTurnRight.movement(), Some(MovementAction::TurnRight));
    assert_eq!(Action::SwitchLevel.movement(), None);
}
