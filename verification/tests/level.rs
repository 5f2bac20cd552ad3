use dragon_grid::action::{Action, MovementAction};
use dragon_grid::direction::Direction;
use dragon_grid::dragon::{BodySegment, Dragon};
use dragon_grid::grid::{Grid, GridPosition, GridSize, WallRange};
use dragon_grid::level::{
    load_level, switch_level, unload_level, ConfigError, CurrentLevel, DragonConfig, Level,
    LevelConfig,
};
use dragon_grid::win::WinTimer;

fn config(width: u32, height: u32, dragons: Vec<DragonConfig>) -> LevelConfig {
    LevelConfig { size: [width, height], walls: Vec::new(), dragons }
}

fn one_dragon(x: i32, y: i32, direction: Direction) -> Vec<DragonConfig> {
    vec![DragonConfig { position: [x, y], direction }]
}

#[test]
fn sound_level_passes_validation() {
    assert_eq!(config(1, 1, one_dragon(0, 0, Direction::Up)).validate(), Ok(()));
}

#[test]
fn grid_without_cells_is_refused() {
    let dragons = one_dragon(0, 0, Direction::Up);
    assert_eq!(config(0, 5, dragons.clone()).validate(), Err(ConfigError::EmptyGrid));
    assert_eq!(config(5, 0, dragons.clone()).validate(), Err(ConfigError::EmptyGrid));
    assert_eq!(config(0, 0, dragons).validate(), Err(ConfigError::EmptyGrid));
}

#[test]
fn level_without_dragons_is_refused() {
    assert_eq!(config(5, 5, Vec::new()).validate(), Err(ConfigError::NoDragons));
}

#[test]
fn empty_grid_is_reported_before_missing_dragons() {
    assert_eq!(config(0, 5, Vec::new()).validate(), Err(ConfigError::EmptyGrid));
}

#[test]
fn level_is_set_up_as_described() {
    let descriptor = LevelConfig {
        size: [8, 6],
        walls: vec![WallRange { from: [1, 1], to: [2, 1] }],
        dragons: vec![
            DragonConfig { position: [0, 0], direction: Direction::Right },
            DragonConfig { position: [7, 5], direction: Direction::Left },
        ],
    };
    let level = Level::from_config(&descriptor);
    let expected = Level {
        grid: Grid::new(GridSize::new(8, 6), vec![WallRange { from: [1, 1], to: [2, 1] }]),
        dragons: vec![
            Dragon::new(0, Direction::Right, GridPosition::new(0, 0)),
            Dragon::new(1, Direction::Left, GridPosition::new(7, 5)),
        ],
        win_timer: None,
    };
    assert_eq!(level, expected);
}

#[test]
fn levels_come_in_a_cycle() {
    let levels = vec![
        config(1, 1, one_dragon(0, 0, Direction::Up)),
        config(2, 2, one_dragon(0, 0, Direction::Up)),
        config(3, 3, one_dragon(0, 0, Direction::Up)),
    ];
    let mut current = CurrentLevel(0);
    let mut order = Vec::new();
    for _ in 0..7 {
        let level = load_level(&mut current, &levels).unwrap();
        order.push(level.grid.size.width);
    }
    assert_eq!(order, vec![1, 2, 3, 1, 2, 3, 1]);
}

#[test]
fn level_counter_advances_by_one_and_wraps() {
    let mut current = CurrentLevel(0);
    let mut picked = Vec::new();
    for _ in 0..6 {
        picked.push(current.advance(3));
    }
    assert_eq!(picked, vec![Some(0), Some(1), Some(2), Some(0), Some(1), Some(2)]);
    assert_eq!(current, CurrentLevel(0));
    let mut current = CurrentLevel(7);
    assert_eq!(current.advance(3), Some(1));
    assert_eq!(current, CurrentLevel(2));
    let mut current = CurrentLevel(usize::MAX);
    assert_eq!(current.advance(usize::MAX), Some(0));
    assert_eq!(current, CurrentLevel(1));
}

#[test]
fn level_counter_stays_without_levels() {
    let mut current = CurrentLevel(4);
    assert_eq!(current.advance(0), None);
    assert_eq!(current, CurrentLevel(4));
}

#[test]
fn load_without_levels_is_refused() {
    let mut current = CurrentLevel(2);
    assert_eq!(load_level(&mut current, &Vec::new()), Err(ConfigError::NoLevels));
    assert_eq!(current, CurrentLevel(2));
}

#[test]
fn load_of_a_faulty_level_is_refused_and_does_not_advance() {
    let levels = vec![config(1, 1, one_dragon(0, 0, Direction::Up)), config(4, 4, Vec::new())];
    let mut current = CurrentLevel(1);
    assert_eq!(load_level(&mut current, &levels), Err(ConfigError::NoDragons));
    assert_eq!(current, CurrentLevel(1));
    let levels = vec![config(0, 1, one_dragon(0, 0, Direction::Up))];
    let mut current = CurrentLevel(0);
    assert_eq!(load_level(&mut current, &levels), Err(ConfigError::EmptyGrid));
    assert_eq!(current, CurrentLevel(0));
}

#[test]
fn switch_is_requested_by_its_action_only() {
    assert!(switch_level(&vec![Action::MovementForwards, Action::SwitchLevel]));
    assert!(switch_level(&vec![Action::SwitchLevel]));
    assert!(!switch_level(&vec![Action::MovementForwards, Action::MovementTurnLeft]));
    assert!(!switch_level(&Vec::new()));
}

#[test]
fn unload_tears_the_level_down() {
    let mut level = Some(Level::from_config(&config(2, 2, one_dragon(0, 0, Direction::Up))));
    unload_level(&mut level);
    assert_eq!(level, None);
    unload_level(&mut level);
    assert_eq!(level, None);
}

#[test]
fn tick_moves_then_detects_the_win() {
    let dragons = vec![
        DragonConfig { position: [2, 3], direction: Direction::Right },
        DragonConfig { position: [4, 3], direction: Direction::Left },
    ];
    let mut level = Level::from_config(&config(10, 10, dragons));
    assert!(!level.tick(&vec![None, None]));
    assert_eq!(level.win_timer, None);
    assert!(level.tick(&vec![Some(MovementAction::Forwards), None]));
    assert_eq!(level.win_timer, Some(WinTimer { elapsed: 0, just_finished: false }));
    assert_eq!(level.dragons[0].head_position, GridPosition::new(3, 3));
    let trail = vec![BodySegment { position: GridPosition::new(2, 3), direction: Direction::Right }];
    assert_eq!(level.dragons[0].body, trail);
}

#[test]
fn tick_with_a_pending_win_keeps_the_timer() {
    let dragons = vec![
        DragonConfig { position: [3, 3], direction: Direction::Right },
        DragonConfig { position: [4, 3], direction: Direction::Left },
    ];
    let mut level = Level::from_config(&config(10, 10, dragons));
    assert!(level.tick(&Vec::new()));
    level.win_timer = Some(WinTimer { elapsed: 77, just_finished: false });
    assert!(!level.tick(&Vec::new()));
    assert_eq!(level.win_timer, Some(WinTimer { elapsed: 77, just_finished: false }));
    assert!(!level.tick(&vec![Some(MovementAction::TurnLeft), Some(MovementAction::TurnLeft)]));
    assert_eq!(level.win_timer, Some(WinTimer { elapsed: 77, just_finished: false }));
    assert_eq!(level.dragons[0].head_position, GridPosition::new(3, 4));
}
