//! The movement engine: one tick resolves every dragon's turn intent against the
//! board as it stood before the tick, then commits the moves that passed.

use crate::action::{Action, MovementAction};
use crate::direction::Direction;
use crate::dragon::{is_occupied, occupied, BodySegment, Dragon, DragonView};
use crate::grid::{Grid, GridPosition, GridView};
use vstd::prelude::*;

verus! {

/// A move that passed validation: the new facing and the cell the head goes to.
#[derive(Clone, Copy, PartialEq, Eq, Debug, Structural)]
pub struct Movement {
    pub direction: Direction,
    pub position: GridPosition,
}

/// The single source of turn intents: what one player presses steers every dragon.
#[derive(Clone, Copy, PartialEq, Eq, Debug, Structural)]
pub struct MovementManager;

/// The grid as the rules see it, where there is one.
pub open spec fn grid_view(grid: Option<&Grid>) -> Option<GridView> {
    match grid {
        Some(g) => Some(g@),
        None => None,
    }
}

/// The intent of dragon `i`; a dragon without an entry has none.
pub open spec fn intent_at(intents: Seq<Option<MovementAction>>, i: int) -> Option<
    MovementAction,
> {
    if 0 <= i < intents.len() {
        intents[i]
    } else {
        None
    }
}

/// The outcome for dragon `i`; a dragon without an entry stays where it is.
pub open spec fn outcome_at(moves: Seq<Option<Movement>>, i: int) -> Option<Movement> {
    if 0 <= i < moves.len() {
        moves[i]
    } else {
        None
    }
}

/// Whether a head may not enter `cell`: the cell lies off the board, a wall fills it,
/// or a head or body segment of any dragon is in it. Without a grid there are neither
/// bounds nor walls.
pub open spec fn impassable(
    grid: Option<GridView>,
    dragons: Seq<DragonView>,
    cell: GridPosition,
) -> bool {
    ||| (grid matches Some(g) && !g.size.in_bounds(cell))
    ||| (grid matches Some(g) && g.blockers.contains(cell))
    ||| occupied(dragons, cell)
}

/// What becomes of one dragon's intent. The facing turns first, the head then aims at
/// the next cell in the new facing, and the move stands only if that cell exists and
/// is passable on the board given by `grid` and `dragons`.
pub open spec fn resolve(
    dragon: DragonView,
    intent: Option<MovementAction>,
    grid: Option<GridView>,
    dragons: Seq<DragonView>,
) -> Option<Movement> {
    match intent {
        None => None,
        Some(action) => {
            let direction = dragon.direction.turned(action);
            match dragon.head_position.stepped(direction) {
                None => None,
                Some(position) => if impassable(grid, dragons, position) {
                    None
                } else {
                    Some(Movement { direction, position })
                },
            }
        },
    }
}

/// The outcome of every dragon's intent, all judged against the same board.
pub open spec fn resolutions(
    dragons: Seq<DragonView>,
    intents: Seq<Option<MovementAction>>,
    grid: Option<GridView>,
) -> Seq<Option<Movement>> {
    Seq::new(dragons.len(), |i: int| resolve(dragons[i], intent_at(intents, i), grid, dragons))
}

impl DragonView {
    /// The dragon with one more body segment, left in the cell where the head is now.
    pub open spec fn trailed(self) -> DragonView {
        DragonView { body: self.body.push(self.vacated()), ..self }
    }

    /// The dragon with its head turned and put as `movement` says.
    pub open spec fn relocated(self, movement: Movement) -> DragonView {
        DragonView { direction: movement.direction, head_position: movement.position, ..self }
    }

    /// The dragon after a tick with the given outcome: a rejected or missing move
    /// changes nothing, an accepted one leaves a segment behind and moves the head.
    pub open spec fn moved(self, outcome: Option<Movement>) -> DragonView {
        match outcome {
            None => self,
            Some(movement) => self.trailed().relocated(movement),
        }
    }
}

/// All dragons after the segments of this tick have been left behind.
pub open spec fn trailed_all(dragons: Seq<DragonView>, moves: Seq<Option<Movement>>) -> Seq<
    DragonView,
> {
    Seq::new(
        dragons.len(),
        |i: int|
            if outcome_at(moves, i) is Some {
                dragons[i].trailed()
            } else {
                dragons[i]
            },
    )
}

/// All dragons after the heads have been moved.
pub open spec fn relocated_all(dragons: Seq<DragonView>, moves: Seq<Option<Movement>>) -> Seq<
    DragonView,
> {
    Seq::new(
        dragons.len(),
        |i: int|
            match outcome_at(moves, i) {
                Some(movement) => dragons[i].relocated(movement),
                None => dragons[i],
            },
    )
}

/// All dragons after one tick of the movement engine.
pub open spec fn advanced(
    dragons: Seq<DragonView>,
    intents: Seq<Option<MovementAction>>,
    grid: Option<GridView>,
) -> Seq<DragonView> {
    Seq::new(
        dragons.len(),
        |i: int| dragons[i].moved(resolve(dragons[i], intent_at(intents, i), grid, dragons)),
    )
}

/// The first turn intent among `actions`, which is the one that counts for the tick.
pub open spec fn first_intent(actions: Seq<Action>) -> Option<MovementAction>
    decreases actions.len(),
{
    if actions.len() == 0 {
        None
    } else if actions[0].intent() is Some {
        actions[0].intent()
    } else {
        first_intent(actions.skip(1))
    }
}

impl MovementManager {
    /// Turns the actions of one tick into one intent per dragon. Every dragon gets the
    /// first movement among the actions; later ones are dropped, not kept for the
    /// next tick.
    pub fn intents(actions: &Vec<Action>, dragon_count: usize) -> (r: Vec<Option<MovementAction>>)
        ensures
            r@ == Seq::new(dragon_count as nat, |i: int| first_intent(actions@)),
    {
        let mut intent: Option<MovementAction> = None;
        let mut k: usize = actions.len();
        while k > 0
            invariant
                k <= actions.len(),
                intent == first_intent(actions@.skip(k as int)),
            decreases k,
        {
            k -= 1;
            let here = actions[k].movement();
            assert(actions@.skip(k as int).skip(1) == actions@.skip(k as int + 1));
            if here.is_some() {
                intent = here;
            }
        }
        assert(actions@.skip(0) == actions@);
        let mut r: Vec<Option<MovementAction>> = Vec::new();
        let mut i: usize = 0;
        while i < dragon_count
            invariant
                i <= dragon_count,
                r@ == Seq::new(i as nat, |j: int| intent),
            decreases dragon_count - i,
        {
            r.push(intent);
            i += 1;
        }
        r
    }
}

/// Resolves the intent of one dragon against the board as `grid` and `dragons` give it.
pub fn resolve_move(
    dragon: &Dragon,
    intent: Option<MovementAction>,
    grid: Option<&Grid>,
    dragons: &Vec<Dragon>,
) -> (r: Option<Movement>)
    ensures
        r == resolve(dragon@, intent, grid_view(grid), dragons.deep_view()),
{
    let action = match intent {
        Some(action) => action,
        None => return None,
    };
    let direction = dragon.direction.process_action(action);
    let position = match dragon.head_position.checked_apply_direction(direction) {
        Some(position) => position,
        None => return None,
    };
    if let Some(g) = grid {
        if !g.size.contains(position) {
            return None;
        }
        if g.is_blocked(position) {
            return None;
        }
    }
    if is_occupied(dragons, position) {
        return None;
    }
    Some(Movement { direction, position })
}

/// Phase one of a tick: judges every dragon's intent. Nothing is changed, so every
/// dragon is judged against the same board, whatever the order.
pub fn process_movement(
    dragons: &Vec<Dragon>,
    intents: &Vec<Option<MovementAction>>,
    grid: Option<&Grid>,
) -> (moves: Vec<Option<Movement>>)
    ensures
        moves@ == resolutions(dragons.deep_view(), intents@, grid_view(grid)),
{
    let mut moves: Vec<Option<Movement>> = Vec::new();
    let mut i: usize = 0;
    while i < dragons.len()
        invariant
            i <= dragons.len(),
            moves@.len() == i,
            forall|k: int|
                0 <= k < i ==> moves@[k] == resolve(
                    #[trigger] dragons.deep_view()[k],
                    intent_at(intents@, k),
                    grid_view(grid),
                    dragons.deep_view(),
                ),
        decreases dragons.len() - i,
    {
        let intent = if i < intents.len() {
            intents[i]
        } else {
            None
        };
        assert(dragons.deep_view()[i as int] == dragons@[i as int]@);
        let outcome = resolve_move(&dragons[i], intent, grid, dragons);
        moves.push(outcome);
        i += 1;
    }
    moves
}

/// Phase two of a tick: every dragon whose move was accepted leaves a body segment
/// in the cell where its head still is, facing as the head still does.
pub fn spawn_body(dragons: &mut Vec<Dragon>, moves: &Vec<Option<Movement>>)
    ensures
        final(dragons).deep_view() == trailed_all(old(dragons).deep_view(), moves@),
{
    let ghost before = dragons.deep_view();
    let mut i: usize = 0;
    while i < dragons.len()
        invariant
            i <= dragons.len(),
            dragons.len() == before.len(),
            forall|k: int|
                0 <= k < i ==> (#[trigger] dragons@[k])@ == trailed_all(before, moves@)[k],
            forall|k: int| i <= k < dragons.len() ==> (#[trigger] dragons@[k])@ == before[k],
        decreases dragons.len() - i,
    {
        let ghost earlier = dragons@;
        if i < moves.len() && moves[i].is_some() {
            let segment = BodySegment {
                position: dragons[i].head_position,
                direction: dragons[i].direction,
            };
            dragons[i].body.push(segment);
            assert(dragons@[i as int]@ == earlier[i as int]@.trailed());
        }
        assert(forall|k: int| 0 <= k < dragons.len() && k != i ==> dragons@[k] == earlier[k]);
        i += 1;
    }
    assert(dragons.deep_view() =~= trailed_all(before, moves@));
}

/// Phase three of a tick: every dragon whose move was accepted turns its head and
/// puts it in the new cell.
pub fn finish_movement(dragons: &mut Vec<Dragon>, moves: &Vec<Option<Movement>>)
    ensures
        final(dragons).deep_view() == relocated_all(old(dragons).deep_view(), moves@),
{
    let ghost before = dragons.deep_view();
    let mut i: usize = 0;
    while i < dragons.len()
        invariant
            i <= dragons.len(),
            dragons.len() == before.len(),
            forall|k: int|
                0 <= k < i ==> (#[trigger] dragons@[k])@ == relocated_all(before, moves@)[k],
            forall|k: int| i <= k < dragons.len() ==> (#[trigger] dragons@[k])@ == before[k],
        decreases dragons.len() - i,
    {
        let ghost earlier = dragons@;
        if i < moves.len() {
            if let Some(movement) = moves[i] {
                dragons[i].direction = movement.direction;
                dragons[i].head_position = movement.position;
                assert(dragons@[i as int]@ == earlier[i as int]@.relocated(movement));
            }
        }
        assert(forall|k: int| 0 <= k < dragons.len() && k != i ==> dragons@[k] == earlier[k]);
        i += 1;
    }
    assert(dragons.deep_view() =~= relocated_all(before, moves@));
}

/// One tick of the movement engine: resolve, leave segments behind, move the heads.
pub fn advance(
    dragons: &mut Vec<Dragon>,
    intents: &Vec<Option<MovementAction>>,
    grid: Option<&Grid>,
)
    ensures
        final(dragons).deep_view() == advanced(
            old(dragons).deep_view(),
            intents@,
            grid_view(grid),
        ),
{
    let moves = process_movement(dragons, intents, grid);
    spawn_body(dragons, &moves);
    finish_movement(dragons, &moves);
}

/// A dragon that aims off the board stays as it is: neither head nor facing changes.
pub proof fn move_off_the_board_is_rejected(
    dragon: DragonView,
    action: MovementAction,
    grid: GridView,
    dragons: Seq<DragonView>,
)
    requires
        dragon.head_position.stepped(dragon.direction.turned(action)) matches Some(target)
            ==> !grid.size.in_bounds(target),
    ensures
        resolve(dragon, Some(action), Some(grid), dragons) is None,
        dragon.moved(resolve(dragon, Some(action), Some(grid), dragons)) == dragon,
{
}

/// A dragon that aims at a wall cell stays as it is.
pub proof fn move_into_a_wall_is_rejected(
    dragon: DragonView,
    action: MovementAction,
    grid: GridView,
    dragons: Seq<DragonView>,
)
    requires
        dragon.head_position.stepped(dragon.direction.turned(action)) matches Some(target)
            && grid.blockers.contains(target),
    ensures
        resolve(dragon, Some(action), Some(grid), dragons) is None,
        dragon.moved(resolve(dragon, Some(action), Some(grid), dragons)) == dragon,
{
}

/// A dragon that aims at a cell where any dragon has its head or a body segment stays
/// as it is, with or without a grid.
pub proof fn move_into_a_dragon_is_rejected(
    dragon: DragonView,
    action: MovementAction,
    grid: Option<GridView>,
    dragons: Seq<DragonView>,
)
    requires
        dragon.head_position.stepped(dragon.direction.turned(action)) matches Some(target)
            && occupied(dragons, target),
    ensures
        resolve(dragon, Some(action), grid, dragons) is None,
        dragon.moved(resolve(dragon, Some(action), grid, dragons)) == dragon,
{
}

/// An accepted move goes one step in the turned facing, to a cell that was passable
/// on the board as it stood before the tick; the head leaves its old cell and facing
/// behind as the newest body segment.
pub proof fn accepted_move_enters_a_free_cell(
    dragon: DragonView,
    action: MovementAction,
    grid: Option<GridView>,
    dragons: Seq<DragonView>,
)
    requires
        resolve(dragon, Some(action), grid, dragons) is Some,
    ensures
        ({
            let movement = resolve(dragon, Some(action), grid, dragons).unwrap();
            let after = dragon.moved(Some(movement));
            &&& movement.direction == dragon.direction.turned(action)
            &&& Some(movement.position) == dragon.head_position.stepped(movement.direction)
            &&& !impassable(grid, dragons, movement.position)
            &&& after.direction == movement.direction
            &&& after.head_position == movement.position
            &&& after.body == dragon.body.push(dragon.vacated())
            &&& after.id == dragon.id
        }),
{
}

/// Heads that are on the board and off the walls stay so through every tick.
pub proof fn heads_stay_on_free_cells(
    dragons: Seq<DragonView>,
    intents: Seq<Option<MovementAction>>,
    grid: GridView,
)
    requires
        forall|i: int|
            0 <= i < dragons.len() ==> grid.size.in_bounds((#[trigger] dragons[i]).head_position)
                && !grid.blockers.contains(dragons[i].head_position),
    ensures
        advanced(dragons, intents, Some(grid)).len() == dragons.len(),
        forall|i: int|
            0 <= i < dragons.len() ==> grid.size.in_bounds(
                (#[trigger] advanced(dragons, intents, Some(grid))[i]).head_position,
            ) && !grid.blockers.contains(advanced(dragons, intents, Some(grid))[i].head_position),
{
}

impl DragonView {
    /// The dragon after a run of ticks, given the outcome of each tick in turn.
    pub open spec fn after(self, outcomes: Seq<Option<Movement>>) -> DragonView
        decreases outcomes.len(),
    {
        if outcomes.len() == 0 {
            self
        } else {
            self.after(outcomes.drop_last()).moved(outcomes.last())
        }
    }

    /// The segments that the dragon leaves behind during a run of ticks, oldest first.
    pub open spec fn trail(self, outcomes: Seq<Option<Movement>>) -> Seq<BodySegment>
        decreases outcomes.len(),
    {
        if outcomes.len() == 0 {
            Seq::empty()
        } else if outcomes.last() is Some {
            self.trail(outcomes.drop_last()).push(self.after(outcomes.drop_last()).vacated())
        } else {
            self.trail(outcomes.drop_last())
        }
    }
}

/// How many of the outcomes are accepted moves.
pub open spec fn accepted(outcomes: Seq<Option<Movement>>) -> nat
    decreases outcomes.len(),
{
    if outcomes.len() == 0 {
        0
    } else if outcomes.last() is Some {
        accepted(outcomes.drop_last()) + 1
    } else {
        accepted(outcomes.drop_last())
    }
}

/// A body grows by exactly one segment per accepted move: after a run of ticks the
/// body is what it was, followed by the trail of the run, and the trail is as long as
/// the number of accepted moves. A dragon that starts without a body therefore has
/// as many segments as it has made moves.
pub proof fn body_grows_by_accepted_moves(dragon: DragonView, outcomes: Seq<Option<Movement>>)
    ensures
        dragon.after(outcomes).body == dragon.body + dragon.trail(outcomes),
        dragon.trail(outcomes).len() == accepted(outcomes),
        dragon.after(outcomes).body.len() == dragon.body.len() + accepted(outcomes),
        dragon.after(outcomes).id == dragon.id,
    decreases outcomes.len(),
{
    if outcomes.len() > 0 {
        body_grows_by_accepted_moves(dragon, outcomes.drop_last());
    }
    assert(dragon.after(outcomes).body =~= dragon.body + dragon.trail(outcomes));
}

/// The trail is the path taken, in the order of time: its segment number `k` is the
/// cell and the facing that the head had just before the tick of its move number `k`,
/// that is the tick with an accepted move before which exactly `k` moves were accepted.
pub proof fn trail_is_the_path_taken(
    dragon: DragonView,
    outcomes: Seq<Option<Movement>>,
    k: int,
) -> (tick: int)
    requires
        0 <= k < dragon.trail(outcomes).len(),
    ensures
        0 <= tick < outcomes.len(),
        outcomes[tick] is Some,
        accepted(outcomes.take(tick)) == k,
        dragon.trail(outcomes)[k] == dragon.after(outcomes.take(tick)).vacated(),
    decreases outcomes.len(),
{
    let earlier = outcomes.drop_last();
    body_grows_by_accepted_moves(dragon, earlier);
    if outcomes.last() is Some && k == dragon.trail(earlier).len() {
        assert(outcomes.take(outcomes.len() - 1) == earlier);
        outcomes.len() - 1
    } else {
        let tick = trail_is_the_path_taken(dragon, earlier, k);
        assert(earlier.take(tick) == outcomes.take(tick));
        tick
    }
}

/// All dragons after a run of ticks, given the intents of each tick in turn.
pub open spec fn run(
    dragons: Seq<DragonView>,
    ticks: Seq<Seq<Option<MovementAction>>>,
    grid: Option<GridView>,
) -> Seq<DragonView>
    decreases ticks.len(),
{
    if ticks.len() == 0 {
        dragons
    } else {
        advanced(run(dragons, ticks.drop_last(), grid), ticks.last(), grid)
    }
}

/// What became of the intents of dragon `i` during a run of ticks, tick by tick.
pub open spec fn outcomes(
    dragons: Seq<DragonView>,
    ticks: Seq<Seq<Option<MovementAction>>>,
    grid: Option<GridView>,
    i: int,
) -> Seq<Option<Movement>>
    decreases ticks.len(),
{
    if ticks.len() == 0 {
        Seq::empty()
    } else {
        let before = run(dragons, ticks.drop_last(), grid);
        outcomes(dragons, ticks.drop_last(), grid, i).push(
            resolve(before[i], intent_at(ticks.last(), i), grid, before),
        )
    }
}

/// Through any run of ticks of the engine, every dragon goes the path that its own
/// outcomes describe, and its body has grown by one segment per accepted move.
pub proof fn run_grows_every_body_by_its_moves(
    dragons: Seq<DragonView>,
    ticks: Seq<Seq<Option<MovementAction>>>,
    grid: Option<GridView>,
    i: int,
)
    requires
        0 <= i < dragons.len(),
    ensures
        run(dragons, ticks, grid).len() == dragons.len(),
        outcomes(dragons, ticks, grid, i).len() == ticks.len(),
        run(dragons, ticks, grid)[i] == dragons[i].after(outcomes(dragons, ticks, grid, i)),
        run(dragons, ticks, grid)[i].body == dragons[i].body + dragons[i].trail(
            outcomes(dragons, ticks, grid, i),
        ),
        run(dragons, ticks, grid)[i].body.len() == dragons[i].body.len() + accepted(
            outcomes(dragons, ticks, grid, i),
        ),
    decreases ticks.len(),
{
    let all = outcomes(dragons, ticks, grid, i);
    if ticks.len() > 0 {
        run_grows_every_body_by_its_moves(dragons, ticks.drop_last(), grid, i);
        assert(all.drop_last() == outcomes(dragons, ticks.drop_last(), grid, i));
    }
    body_grows_by_accepted_moves(dragons[i], all);
}

} // verus!
