//! Discrete input events.

use vstd::prelude::*;

verus! {

/// One turn intent of a dragon: keep going, or turn a quarter to either side first.
#[derive(Clone, Copy, PartialEq, Eq, Hash, Debug, Structural)]
pub enum MovementAction {
    Forwards,
    TurnLeft,
    TurnRight,
}

/// Everything a player can ask for.
#[derive(Clone, Copy, PartialEq, Eq, Hash, Debug, Structural)]
pub enum Action {
    MovementForwards,
    MovementTurnLeft,
    MovementTurnRight,
    SwitchLevel,
}

impl MovementAction {
    /// The counterclockwise quarter turns that the intent adds to a facing.
    pub open spec fn quarter_turns(self) -> int {
        match self {
            MovementAction::Forwards => 0,
            MovementAction::TurnLeft => 1,
            MovementAction::TurnRight => 3,
        }
    }
}

impl Action {
    /// The turn intent that this action carries, if it is a movement at all.
    pub open spec fn intent(self) -> Option<MovementAction> {
        match self {
            Action::MovementForwards => Some(MovementAction::Forwards),
            Action::MovementTurnLeft => Some(MovementAction::TurnLeft),
            Action::MovementTurnRight => Some(MovementAction::TurnRight),
            Action::SwitchLevel => None,
        }
    }

    /// Extracts the turn intent; `SwitchLevel` is the only action without one.
    pub fn movement(self) -> (r: Option<MovementAction>)
        ensures
            r == self.intent(),
    {
        match self {
            Action::MovementForwards => Some(MovementAction::Forwards),
            Action::MovementTurnLeft => Some(MovementAction::TurnLeft),
            Action::MovementTurnRight => Some(MovementAction::TurnRight),
            _ => None,
        }
    }
}

} // verus!
