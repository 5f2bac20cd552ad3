//! The names of the three phases of a tick, in the order in which they run:
//! input handling, entity processing, entity finalisation.

use vstd::prelude::*;

verus! {

/// The phase in which turn intents are resolved.
#[derive(Clone, Copy, PartialEq, Eq, Debug, Structural)]
pub struct InputHandlingStage;

/// The phase in which accepted moves leave their body segments behind.
#[derive(Clone, Copy, PartialEq, Eq, Debug, Structural)]
pub struct EntityProcessingStage;

/// The phase in which heads are put into their new cells.
#[derive(Clone, Copy, PartialEq, Eq, Debug, Structural)]
pub struct EntityFinalisationStage;

impl InputHandlingStage {
    pub fn as_str(&self) -> (s: &'static str)
        ensures
            s@ == "InputHandling"@,
    {
        "InputHandling"
    }
}

impl EntityProcessingStage {
    pub fn as_str(&self) -> (s: &'static str)
        ensures
            s@ == "EntityProcessing"@,
    {
        "EntityProcessing"
    }
}

impl EntityFinalisationStage {
    pub fn as_str(&self) -> (s: &'static str)
        ensures
            s@ == "EntityFinalisation"@,
    {
        "EntityFinalisation"
    }
}

} // verus!
