//! The life cycle of the game: assets are loaded, then levels are loaded and played
//! in turn. The simulation is one value that the outer loop owns and feeds events.

use crate::action::Action;
use crate::level::{switch_level, ConfigError, CurrentLevel, Level, LevelConfig, LevelView};
use crate::movement::{first_intent, MovementManager};
use crate::win::check_win_timer;
use vstd::prelude::*;

verus! {

/// Where in its life cycle the game is.
#[derive(Copy, Clone, PartialEq, Eq, PartialOrd, Ord, Debug, Hash, Structural)]
pub enum State {
    AssetLoading,
    LevelLoading,
    InLevel,
}

/// What an event made happen, for whoever draws the game.
#[derive(Copy, Clone, PartialEq, Eq, Debug, Structural)]
pub enum Signal {
    /// Nothing that the outside needs to act on.
    Nothing,
    /// Every entity of the level is in place; the round begins.
    LevelLoadComplete,
    /// The delay after a win has run out; the round is over and the next level loads.
    WinConfirmed,
    /// The player asked for the next level; the round is over and the next level loads.
    LevelUnloadRequested,
}

/// The whole state of the game.
pub struct Simulation {
    state: State,
    current_level: CurrentLevel,
    load_tasks: usize,
    levels: Vec<LevelConfig>,
    level: Option<Level>,
}

/// The simulation as a mathematical value.
pub struct SimulationView {
    pub state: State,
    pub current_level: CurrentLevel,
    /// How many entities of the level being loaded are not in place yet.
    pub load_tasks: nat,
    pub levels: Seq<LevelConfig>,
    pub level: Option<LevelView>,
}

/// The fault of the first faulty descriptor from index `from` on, if there is one.
pub open spec fn fault_from(levels: Seq<LevelConfig>, from: int) -> Option<ConfigError>
    decreases levels.len() - from,
{
    if from < 0 || from >= levels.len() {
        None
    } else if levels[from].fault() is Some {
        levels[from].fault()
    } else {
        fault_from(levels, from + 1)
    }
}

/// Why a set of levels cannot be played, if it cannot: there is none, or one of them
/// is faulty, in which case the first faulty one is reported.
pub open spec fn set_fault(levels: Seq<LevelConfig>) -> Option<ConfigError> {
    if levels.len() == 0 {
        Some(ConfigError::NoLevels)
    } else {
        fault_from(levels, 0)
    }
}

impl SimulationView {
    /// What holds of every simulation: levels are known and sound once the assets are
    /// in, a level is there whenever one is loading or played, and the count of open
    /// load tasks is positive exactly while a level is loading.
    pub open spec fn wf(self) -> bool {
        &&& self.state is AssetLoading ==> self.level is None && self.load_tasks == 0
        &&& !(self.state is AssetLoading) ==> set_fault(self.levels) is None
        &&& self.state is LevelLoading ==> self.level is Some && 1 <= self.load_tasks
            <= self.level.unwrap().dragons.len()
        &&& self.state is InLevel ==> self.level is Some && self.load_tasks == 0
    }

    /// The simulation as it starts to load the level that is due. Whatever level
    /// there was is gone; the load tasks are one per dragon of the new level.
    pub open spec fn entering(self) -> SimulationView {
        let count = self.levels.len();
        let config = self.levels[self.current_level.index(count) as int];
        SimulationView {
            state: State::LevelLoading,
            current_level: self.current_level.stepped(count),
            load_tasks: config.dragons@.len(),
            levels: self.levels,
            level: Some(config.level()),
        }
    }

    /// The simulation after the assets have come in with `levels`.
    pub open spec fn with_assets(self, levels: Seq<LevelConfig>) -> SimulationView {
        if self.state is AssetLoading && set_fault(levels) is None {
            SimulationView { levels, ..self }.entering()
        } else {
            self
        }
    }

    /// The simulation after one more entity of the loading level is in place.
    pub open spec fn with_entity(self) -> SimulationView {
        if self.state is LevelLoading {
            if self.load_tasks <= 1 {
                SimulationView { state: State::InLevel, load_tasks: 0, ..self }
            } else {
                SimulationView { load_tasks: (self.load_tasks - 1) as nat, ..self }
            }
        } else {
            self
        }
    }

    /// What one frame in a level brings about.
    pub open spec fn frame_signal(self, actions: Seq<Action>, elapsed: u64) -> Signal {
        if !(self.state is InLevel) || self.level is None {
            Signal::Nothing
        } else if actions.contains(Action::SwitchLevel) {
            Signal::LevelUnloadRequested
        } else if self.level.unwrap().win_timer matches Some(timer) && timer.ticked(
            elapsed,
        ).just_finished {
            Signal::WinConfirmed
        } else {
            Signal::Nothing
        }
    }

    /// The simulation after one frame. Outside of a level nothing happens. In a level,
    /// a request for the next level or a win whose delay runs out ends the round and
    /// starts the next load; otherwise a pending win counts on, every dragon gets the
    /// first turn intent among the actions, and the level goes through one tick.
    pub open spec fn framed(self, actions: Seq<Action>, elapsed: u64) -> SimulationView {
        if !(self.state is InLevel) || self.level is None {
            self
        } else if self.frame_signal(actions, elapsed) != Signal::Nothing {
            self.entering()
        } else {
            let level = self.level.unwrap();
            let counted = LevelView {
                win_timer: match level.win_timer {
                    Some(timer) => Some(timer.ticked(elapsed)),
                    None => None,
                },
                ..level
            };
            let intents = Seq::new(level.dragons.len(), |i: int| first_intent(actions));
            SimulationView { level: Some(counted.ticked(intents)), ..self }
        }
    }
}

impl View for Simulation {
    type V = SimulationView;

    closed spec fn view(&self) -> SimulationView {
        SimulationView {
            state: self.state,
            current_level: self.current_level,
            load_tasks: self.load_tasks as nat,
            levels: self.levels@,
            level: match self.level {
                Some(level) => Some(level@),
                None => None,
            },
        }
    }
}

/// A set of levels without fault holds no faulty level.
pub proof fn sound_set_has_sound_levels(levels: Seq<LevelConfig>, from: int, i: int)
    requires
        0 <= from <= i < levels.len(),
        fault_from(levels, from) is None,
    ensures
        levels[i].fault() is None,
    decreases i - from,
{
    if from < i {
        sound_set_has_sound_levels(levels, from + 1, i);
    }
}

/// Checks every descriptor before any level is played.
pub fn validate_levels(levels: &Vec<LevelConfig>) -> (r: Result<(), ConfigError>)
    ensures
        r == match set_fault(levels@) {
            Some(e) => Err::<(), ConfigError>(e),
            None => Ok::<(), ConfigError>(()),
        },
{
    if levels.len() == 0 {
        return Err(ConfigError::NoLevels);
    }
    let mut i: usize = 0;
    while i < levels.len()
        invariant
            i <= levels.len(),
            fault_from(levels@, 0) == fault_from(levels@, i as int),
        decreases levels.len() - i,
    {
        match levels[i].validate() {
            Err(e) => {
                return Err(e);
            },
            Ok(()) => {},
        }
        i += 1;
    }
    Ok(())
}

impl Simulation {
    /// A game that waits for its assets.
    pub fn new() -> (r: Simulation)
        ensures
            r@.wf(),
            r@ == (SimulationView {
                state: State::AssetLoading,
                current_level: CurrentLevel(0),
                load_tasks: 0,
                levels: Seq::empty(),
                level: None,
            }),
    {
        Simulation {
            state: State::AssetLoading,
            current_level: CurrentLevel(0),
            load_tasks: 0,
            levels: Vec::new(),
            level: None,
        }
    }

    pub fn state(&self) -> (r: State)
        ensures
            r == self@.state,
    {
        self.state
    }

    pub fn current_level(&self) -> (r: CurrentLevel)
        ensures
            r == self@.current_level,
    {
        self.current_level
    }

    /// How many entities of the level being loaded are not in place yet.
    pub fn load_tasks(&self) -> (r: usize)
        ensures
            r == self@.load_tasks,
    {
        self.load_tasks
    }

    /// The level that is loading or played, for whoever draws it.
    pub fn level(&self) -> (r: Option<&Level>)
        ensures
            self@.level == match r {
                Some(level) => Some(level@),
                None => None,
            },
    {
        self.level.as_ref()
    }

    /// Starts to load the level that is due, in place of whatever level there was.
    fn enter(&mut self)
        requires
            set_fault(old(self)@.levels) is None,
        ensures
            final(self)@ == old(self)@.entering(),
            final(self)@.level is Some,
            1 <= final(self)@.load_tasks == final(self)@.level.unwrap().dragons.len(),
    {
        let count = self.levels.len();
        let index = self.current_level.0 % count;
        proof {
            sound_set_has_sound_levels(self.levels@, 0, index as int);
        }
        let level = Level::from_config(&self.levels[index]);
        assert(level.dragons.len() == level@.dragons.len());
        assert(level@.dragons.len() == self.levels@[index as int].dragons@.len());
        self.load_tasks = level.dragons.len();
        self.level = Some(level);
        self.current_level.advance(count);
        self.state = State::LevelLoading;
    }

    /// The assets are in, and with them the level descriptors. They are all checked
    /// before any is used: a faulty set is refused and the game goes on waiting.
    /// A sound set starts the load of the first level.
    pub fn assets_ready(&mut self, levels: Vec<LevelConfig>) -> (r: Result<(), ConfigError>)
        requires
            old(self)@.wf(),
        ensures
            final(self)@.wf(),
            final(self)@ == old(self)@.with_assets(levels@),
            r == match set_fault(levels@) {
                Some(e) if old(self)@.state is AssetLoading => Err::<(), ConfigError>(e),
                _ => Ok::<(), ConfigError>(()),
            },
    {
        match self.state {
            State::AssetLoading => {},
            _ => {
                return Ok(());
            },
        }
        match validate_levels(&levels) {
            Err(e) => Err(e),
            Ok(()) => {
                self.levels = levels;
                self.enter();
                Ok(())
            },
        }
    }

    /// One more entity of the loading level is in place. The last one begins the round.
    pub fn entity_loaded(&mut self) -> (r: Signal)
        requires
            old(self)@.wf(),
        ensures
            final(self)@.wf(),
            final(self)@ == old(self)@.with_entity(),
            r == if old(self)@.state is LevelLoading && old(self)@.load_tasks <= 1 {
                Signal::LevelLoadComplete
            } else {
                Signal::Nothing
            },
    {
        match self.state {
            State::LevelLoading => {
                if self.load_tasks <= 1 {
                    self.load_tasks = 0;
                    self.state = State::InLevel;
                    Signal::LevelLoadComplete
                } else {
                    self.load_tasks = self.load_tasks - 1;
                    Signal::Nothing
                }
            },
            _ => Signal::Nothing,
        }
    }
}

impl Simulation {
    /// One frame: the actions that the player just made, and the nanoseconds since the
    /// frame before. Outside of a level a frame does nothing.
    pub fn frame(&mut self, actions: &Vec<Action>, elapsed: u64) -> (r: Signal)
        requires
            old(self)@.wf(),
        ensures
            final(self)@.wf(),
            final(self)@ == old(self)@.framed(actions@, elapsed),
            r == old(self)@.frame_signal(actions@, elapsed),
    {
        match self.state {
            State::InLevel => {},
            _ => {
                return Signal::Nothing;
            },
        }
        if switch_level(actions) {
            self.enter();
            return Signal::LevelUnloadRequested;
        }
        let mut expired = false;
        match &mut self.level {
            Some(level) => {
                match &mut level.win_timer {
                    Some(timer) => {
                        expired = check_win_timer(timer, elapsed);
                    },
                    None => {},
                }
            },
            None => {},
        }
        if expired {
            self.enter();
            return Signal::WinConfirmed;
        }
        match &mut self.level {
            Some(level) => {
                let intents = MovementManager::intents(actions, level.dragons.len());
                assert(level.dragons.len() == level@.dragons.len());
                level.tick(&intents);
            },
            None => {},
        }
        Signal::Nothing
    }
}

} // verus!
