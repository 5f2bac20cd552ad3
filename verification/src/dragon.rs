//! Dragons: a steered head and the trail of body segments behind it.

use crate::direction::Direction;
use crate::grid::GridPosition;
use vstd::prelude::*;

verus! {

/// The mark a head leaves in the cell it moves out of: where it was and how it faced.
/// A segment never changes once it exists.
#[derive(Clone, Copy, PartialEq, Eq, Debug, Structural)]
pub struct BodySegment {
    pub position: GridPosition,
    pub direction: Direction,
}

/// A dragon. Only the head moves; `body` holds the segments in the order in which
/// they were left behind, oldest first.
#[derive(Clone, PartialEq, Eq, Debug)]
pub struct Dragon {
    pub id: usize,
    pub direction: Direction,
    pub head_position: GridPosition,
    pub body: Vec<BodySegment>,
}

/// A dragon as a mathematical value.
pub struct DragonView {
    pub id: usize,
    pub direction: Direction,
    pub head_position: GridPosition,
    pub body: Seq<BodySegment>,
}

impl View for Dragon {
    type V = DragonView;

    open spec fn view(&self) -> DragonView {
        DragonView {
            id: self.id,
            direction: self.direction,
            head_position: self.head_position,
            body: self.body@,
        }
    }
}

impl DeepView for Dragon {
    type V = DragonView;

    open spec fn deep_view(&self) -> DragonView {
        self@
    }
}

impl DragonView {
    /// The segment that the head would leave behind if it moved now.
    pub open spec fn vacated(self) -> BodySegment {
        BodySegment { position: self.head_position, direction: self.direction }
    }

    /// Whether the head or a body segment of this dragon is in `cell`.
    pub open spec fn occupies(self, cell: GridPosition) -> bool {
        self.head_position == cell || exists|j: int|
            0 <= j < self.body.len() && (#[trigger] self.body[j]).position == cell
    }
}

/// Whether any dragon has its head or a body segment in `cell`.
pub open spec fn occupied(dragons: Seq<DragonView>, cell: GridPosition) -> bool {
    exists|i: int| 0 <= i < dragons.len() && (#[trigger] dragons[i]).occupies(cell)
}

impl Dragon {
    /// A dragon that has not moved yet.
    pub fn new(id: usize, direction: Direction, head_position: GridPosition) -> (r: Dragon)
        ensures
            r@ == (DragonView { id, direction, head_position, body: Seq::empty() }),
    {
        Dragon { id, direction, head_position, body: Vec::new() }
    }

    /// Whether the head or a body segment of this dragon is in `cell`.
    pub fn occupies(&self, cell: GridPosition) -> (r: bool)
        ensures
            r == self@.occupies(cell),
    {
        if self.head_position == cell {
            return true;
        }
        let mut j: usize = 0;
        while j < self.body.len()
            invariant
                j <= self.body.len(),
                forall|k: int| 0 <= k < j ==> (#[trigger] self.body@[k]).position != cell,
            decreases self.body.len() - j,
        {
            if self.body[j].position == cell {
                return true;
            }
            j += 1;
        }
        false
    }
}

/// Whether any dragon has its head or a body segment in `cell`.
pub fn is_occupied(dragons: &Vec<Dragon>, cell: GridPosition) -> (r: bool)
    ensures
        r == occupied(dragons.deep_view(), cell),
{
    let mut i: usize = 0;
    while i < dragons.len()
        invariant
            i <= dragons.len(),
            forall|k: int| 0 <= k < i ==> !(#[trigger] dragons.deep_view()[k]).occupies(cell),
        decreases dragons.len() - i,
    {
        assert(dragons.deep_view()[i as int] == dragons@[i as int]@);
        if dragons[i].occupies(cell) {
            return true;
        }
        i += 1;
    }
    false
}

} // verus!
