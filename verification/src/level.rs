//! Levels: their descriptors, how one is set up, and the order in which they come.

use crate::action::{Action, MovementAction};
use crate::direction::Direction;
use crate::dragon::{Dragon, DragonView};
use crate::grid::{Grid, GridPosition, GridSize, GridView, WallRange};
use crate::movement::{advance, advanced};
use crate::win::{check_win, detected, win_condition, WinTimer};
use vstd::prelude::*;

verus! {

/// Where a dragon starts and how it faces.
#[derive(Clone, Copy, PartialEq, Eq, Debug)]
pub struct DragonConfig {
    pub position: [i32; 2],
    pub direction: Direction,
}

/// The descriptor of a level. It is only ever read.
#[derive(Clone, PartialEq, Eq, Debug)]
pub struct LevelConfig {
    pub size: [u32; 2],
    pub walls: Vec<WallRange>,
    pub dragons: Vec<DragonConfig>,
}

/// Why a set of level descriptors cannot be played.
#[derive(Clone, Copy, PartialEq, Eq, Debug, Structural)]
pub enum ConfigError {
    /// There is no level at all.
    NoLevels,
    /// The grid of the level has no cell.
    EmptyGrid,
    /// The level places no dragon.
    NoDragons,
}

/// The number of levels loaded so far, kept modulo the number of levels.
#[derive(Copy, Clone, PartialEq, Eq, PartialOrd, Ord, Debug, Structural)]
pub struct CurrentLevel(pub usize);

/// Everything that lives as long as one round: the board, the dragons and the win.
#[derive(Clone, PartialEq, Eq, Debug)]
pub struct Level {
    pub grid: Grid,
    pub dragons: Vec<Dragon>,
    pub win_timer: Option<WinTimer>,
}

/// A level as a mathematical value.
pub struct LevelView {
    pub grid: GridView,
    pub dragons: Seq<DragonView>,
    pub win_timer: Option<WinTimer>,
}

impl View for Level {
    type V = LevelView;

    open spec fn view(&self) -> LevelView {
        LevelView {
            grid: self.grid@,
            dragons: self.dragons.deep_view(),
            win_timer: self.win_timer,
        }
    }
}

impl DragonConfig {
    /// The dragon that the entry places, under the given id: it has not moved yet.
    pub open spec fn placed(self, id: usize) -> DragonView {
        DragonView {
            id,
            direction: self.direction,
            head_position: GridPosition { x: self.position[0], y: self.position[1] },
            body: Seq::empty(),
        }
    }
}

impl LevelConfig {
    /// What is wrong with the descriptor, if anything. An empty grid is reported
    /// before a missing dragon.
    pub open spec fn fault(self) -> Option<ConfigError> {
        if self.size[0] == 0 || self.size[1] == 0 {
            Some(ConfigError::EmptyGrid)
        } else if self.dragons@.len() == 0 {
            Some(ConfigError::NoDragons)
        } else {
            None
        }
    }

    /// The level at its start: the dragons in the order of the descriptor, numbered
    /// from zero, and no win pending.
    pub open spec fn level(self) -> LevelView {
        LevelView {
            grid: GridView {
                size: GridSize { width: self.size[0], height: self.size[1] },
                blockers: crate::grid::wall_cells(self.walls@),
            },
            dragons: Seq::new(self.dragons@.len(), |i: int| self.dragons@[i].placed(i as usize)),
            win_timer: None,
        }
    }

    /// Checks that the level can be played.
    pub fn validate(&self) -> (r: Result<(), ConfigError>)
        ensures
            r is Ok <==> self.fault() is None,
            r matches Err(e) ==> self.fault() == Some(e),
    {
        if self.size[0] == 0 || self.size[1] == 0 {
            Err(ConfigError::EmptyGrid)
        } else if self.dragons.len() == 0 {
            Err(ConfigError::NoDragons)
        } else {
            Ok(())
        }
    }
}

impl LevelView {
    /// The level after one tick: the movement engine runs first, the win detector
    /// then looks at the heads where they are after the moves.
    pub open spec fn ticked(self, intents: Seq<Option<MovementAction>>) -> LevelView {
        let dragons = advanced(self.dragons, intents, Some(self.grid));
        LevelView { grid: self.grid, dragons, win_timer: detected(dragons, self.win_timer) }
    }
}

impl Level {
    /// One tick of the round. Returns whether this tick raised the win.
    pub fn tick(&mut self, intents: &Vec<Option<MovementAction>>) -> (raised: bool)
        ensures
            final(self)@ == old(self)@.ticked(intents@),
            raised == (old(self).win_timer is None && win_condition(final(self)@.dragons)),
    {
        advance(&mut self.dragons, intents, Some(&self.grid));
        check_win(&self.dragons, &mut self.win_timer)
    }

    /// Sets the level up as its descriptor says.
    pub fn from_config(config: &LevelConfig) -> (r: Level)
        ensures
            r@ == config.level(),
            r.grid.walls@ == config.walls@,
    {
        let mut walls: Vec<WallRange> = Vec::new();
        let mut w: usize = 0;
        while w < config.walls.len()
            invariant
                w <= config.walls.len(),
                walls@ == config.walls@.take(w as int),
            decreases config.walls.len() - w,
        {
            walls.push(config.walls[w]);
            assert(config.walls@.take(w as int).push(config.walls@[w as int])
                == config.walls@.take(w as int + 1));
            w += 1;
        }
        assert(config.walls@.take(w as int) == config.walls@);
        let mut dragons: Vec<Dragon> = Vec::new();
        let mut i: usize = 0;
        while i < config.dragons.len()
            invariant
                i <= config.dragons.len(),
                dragons.len() == i,
                forall|k: int|
                    0 <= k < i ==> (#[trigger] dragons@[k])@ == config.dragons@[k].placed(
                        k as usize,
                    ),
            decreases config.dragons.len() - i,
        {
            let entry = &config.dragons[i];
            let head = GridPosition::new(entry.position[0], entry.position[1]);
            dragons.push(Dragon::new(i, entry.direction, head));
            i += 1;
        }
        let size = GridSize::new(config.size[0], config.size[1]);
        let level = Level { grid: Grid::new(size, walls), dragons, win_timer: None };
        assert(level@.dragons =~= config.level().dragons);
        level
    }
}

impl CurrentLevel {
    /// The level that the next load brings, out of `count` levels.
    pub open spec fn index(self, count: nat) -> nat {
        self.0 as nat % count
    }

    /// The counter after one load.
    pub open spec fn stepped(self, count: nat) -> CurrentLevel {
        CurrentLevel(((self.index(count) + 1) % count) as usize)
    }

    /// The counter after `loads` loads.
    pub open spec fn after(self, count: nat, loads: nat) -> CurrentLevel
        decreases loads,
    {
        if loads == 0 {
            self
        } else {
            self.after(count, (loads - 1) as nat).stepped(count)
        }
    }

    /// Picks the level to load and moves on to the one after it, wrapping around
    /// behind the last. With no level to pick from, nothing happens.
    pub fn advance(&mut self, count: usize) -> (r: Option<usize>)
        ensures
            count == 0 ==> r is None && *final(self) == *old(self),
            count > 0 ==> r == Some(old(self).index(count as nat) as usize) && *final(self)
                == old(self).stepped(count as nat),
    {
        if count == 0 {
            return None;
        }
        let index = self.0 % count;
        proof {
            if index + 1 == count {
                vstd::arithmetic::div_mod::lemma_mod_self_0(count as int);
            } else {
                vstd::arithmetic::div_mod::lemma_small_mod((index + 1) as nat, count as nat);
            }
        }
        self.0 = if index + 1 == count {
            0
        } else {
            index + 1
        };
        Some(index)
    }
}

/// Levels come in a cycle: out of `count` levels, the load after `loads` earlier ones
/// brings level `(start + loads) % count`, so that each load moves on by one and the
/// level after the last is the first.
pub proof fn levels_cycle(start: CurrentLevel, count: nat, loads: nat)
    requires
        0 < count <= usize::MAX,
    ensures
        start.after(count, loads).index(count) == (start.0 + loads) % (count as int),
        loads > 0 ==> start.after(count, loads).0 < count,
    decreases loads,
{
    if loads > 0 {
        let before = start.after(count, (loads - 1) as nat);
        levels_cycle(start, count, (loads - 1) as nat);
        let i = before.index(count);
        assert(i == (start.0 + loads - 1) % (count as int));
        vstd::arithmetic::div_mod::lemma_add_mod_noop(start.0 + loads - 1, 1, count as int);
        vstd::arithmetic::div_mod::lemma_mod_twice((i + 1) as int, count as int);
        if count == 1 {
            assert(1int % 1 == 0);
        } else {
            vstd::arithmetic::div_mod::lemma_small_mod(1, count);
        }
    }
}

/// Loads the next level: picks the descriptor that is due, checks it, and sets the
/// level up. Only a load that succeeds moves on to the next level.
pub fn load_level(current: &mut CurrentLevel, levels: &Vec<LevelConfig>) -> (r: Result<
    Level,
    ConfigError,
>)
    ensures
        levels@.len() == 0 ==> r == Err::<Level, ConfigError>(ConfigError::NoLevels),
        levels@.len() > 0 ==> ({
            let config = levels@[old(current).index(levels@.len()) as int];
            match config.fault() {
                Some(fault) => r == Err::<Level, ConfigError>(fault),
                None => (r matches Ok(level) && level@ == config.level()),
            }
        }),
        *final(current) == if r is Ok {
            old(current).stepped(levels@.len())
        } else {
            *old(current)
        },
{
    if levels.len() == 0 {
        return Err(ConfigError::NoLevels);
    }
    let index = current.0 % levels.len();
    let config = &levels[index];
    match config.validate() {
        Err(e) => Err(e),
        Ok(()) => {
            let level = Level::from_config(config);
            current.advance(levels.len());
            Ok(level)
        },
    }
}

/// Whether the player asks for the next level.
pub fn switch_level(actions: &Vec<Action>) -> (r: bool)
    ensures
        r == actions@.contains(Action::SwitchLevel),
{
    let mut i: usize = 0;
    while i < actions.len()
        invariant
            i <= actions.len(),
            forall|k: int| 0 <= k < i ==> actions@[k] != Action::SwitchLevel,
        decreases actions.len() - i,
    {
        if actions[i] == Action::SwitchLevel {
            return true;
        }
        i += 1;
    }
    false
}

/// Tears the round down: the board, the dragons with their bodies and the pending win
/// all go at once.
pub fn unload_level(level: &mut Option<Level>)
    ensures
        *final(level) is None,
{
    *level = None;
}

/// A tick never touches a pending win: the detector is passed over until the round
/// is torn down, however the heads stand after the moves.
pub proof fn tick_keeps_pending_win(level: LevelView, intents: Seq<Option<MovementAction>>)
    requires
        level.win_timer is Some,
    ensures
        level.ticked(intents).win_timer == level.win_timer,
{
}

} // verus!
