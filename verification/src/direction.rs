//! The four compass directions a dragon can face, as a cyclic group of quarter turns.

use crate::action::MovementAction;
use vstd::prelude::*;

verus! {

/// A facing on the grid. `Up` points towards larger `y`, `Right` towards larger `x`.
#[derive(Copy, Clone, PartialEq, Eq, PartialOrd, Ord, Debug, Structural)]
pub enum Direction {
    Up,
    Down,
    Left,
    Right,
}

impl Direction {
    /// The angle of the facing, counted in counterclockwise quarter turns from `Right`.
    pub open spec fn quarter_turns(self) -> int {
        match self {
            Direction::Right => 0,
            Direction::Up => 1,
            Direction::Left => 2,
            Direction::Down => 3,
        }
    }

    /// The facing at an angle of `n` quarter turns; any integer is reduced modulo four.
    pub open spec fn from_quarter_turns(n: int) -> Direction {
        let k = n % 4;
        if k == 0 {
            Direction::Right
        } else if k == 1 {
            Direction::Up
        } else if k == 2 {
            Direction::Left
        } else {
            Direction::Down
        }
    }

    /// The facing after a turn intent: the angles add up.
    pub open spec fn turned(self, action: MovementAction) -> Direction {
        Self::from_quarter_turns(self.quarter_turns() + action.quarter_turns())
    }

    /// The facing after a half turn.
    pub open spec fn reversed(self) -> Direction {
        Self::from_quarter_turns(self.quarter_turns() + 2)
    }

    /// The unit step of the facing as `(dx, dy)`.
    pub open spec fn step(self) -> (int, int) {
        match self {
            Direction::Up => (0, 1),
            Direction::Down => (0, -1),
            Direction::Left => (-1, 0),
            Direction::Right => (1, 0),
        }
    }

    /// Resolves a turn intent: `Forwards` keeps the facing, `TurnLeft` turns a quarter
    /// counterclockwise, `TurnRight` a quarter clockwise.
    pub fn process_action(self, action: MovementAction) -> (r: Direction)
        ensures
            r == self.turned(action),
    {
        match action {
            MovementAction::Forwards => self,
            MovementAction::TurnLeft => match self {
                Direction::Up => Direction::Left,
                Direction::Down => Direction::Right,
                Direction::Left => Direction::Down,
                Direction::Right => Direction::Up,
            },
            MovementAction::TurnRight => match self {
                Direction::Up => Direction::Right,
                Direction::Down => Direction::Left,
                Direction::Left => Direction::Up,
                Direction::Right => Direction::Down,
            },
        }
    }

    /// The unit step of the facing as `(dx, dy)`, with `y` growing upwards.
    pub fn delta(self) -> (r: (i32, i32))
        ensures
            r.0 == self.step().0,
            r.1 == self.step().1,
    {
        match self {
            Direction::Up => (0, 1),
            Direction::Down => (0, -1),
            Direction::Left => (-1, 0),
            Direction::Right => (1, 0),
        }
    }

    /// Turns around: the facing that points the other way along the same axis.
    pub fn opposite(self) -> (r: Direction)
        ensures
            r == self.reversed(),
    {
        match self {
            Direction::Up => Direction::Down,
            Direction::Down => Direction::Up,
            Direction::Left => Direction::Right,
            Direction::Right => Direction::Left,
        }
    }
}

/// Four quarter turns to the same side bring every facing back to itself.
pub proof fn four_equal_turns_restore(d: Direction)
    ensures
        d.turned(MovementAction::TurnLeft).turned(MovementAction::TurnLeft).turned(
            MovementAction::TurnLeft,
        ).turned(MovementAction::TurnLeft) == d,
        d.turned(MovementAction::TurnRight).turned(MovementAction::TurnRight).turned(
            MovementAction::TurnRight,
        ).turned(MovementAction::TurnRight) == d,
{
}

/// A left turn and a right turn undo each other, in either order.
pub proof fn opposite_turns_cancel(d: Direction)
    ensures
        d.turned(MovementAction::TurnLeft).turned(MovementAction::TurnRight) == d,
        d.turned(MovementAction::TurnRight).turned(MovementAction::TurnLeft) == d,
{
}

/// Going forwards never changes the facing.
pub proof fn forwards_keeps_facing(d: Direction)
    ensures
        d.turned(MovementAction::Forwards) == d,
{
}

/// Turning around twice brings every facing back to itself.
pub proof fn reversing_twice_restores(d: Direction)
    ensures
        d.reversed().reversed() == d,
{
}

/// Turning around is the same as two quarter turns to either side, and it is the one
/// facing whose step is the negated step.
pub proof fn reversed_is_half_turn(d: Direction)
    ensures
        d.reversed() == d.turned(MovementAction::TurnLeft).turned(MovementAction::TurnLeft),
        d.reversed() == d.turned(MovementAction::TurnRight).turned(MovementAction::TurnRight),
        d.reversed().step() == (-d.step().0, -d.step().1),
        forall|e: Direction| e.step() == (-d.step().0, -d.step().1) ==> e == d.reversed(),
{
}

/// A left turn rotates the step a quarter counterclockwise, a right turn clockwise.
pub proof fn turns_rotate_the_step(d: Direction)
    ensures
        d.turned(MovementAction::TurnLeft).step() == (-d.step().1, d.step().0),
        d.turned(MovementAction::TurnRight).step() == (d.step().1, -d.step().0),
{
}

} // verus!
