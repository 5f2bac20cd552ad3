use dragon_grid::direction::Direction;
use dragon_grid::dragon::Dragon;
use dragon_grid::grid::GridPosition;
use dragon_grid::win::{check_win, check_win_timer, confronting, heads_meet, WinTimer, WIN_DELAY};

fn pair(a: (i32, i32, Direction), b: (i32, i32, Direction)) -> Vec<Dragon> {
    vec![
        Dragon::new(0, a.2, GridPosition::new(a.0, a.1)),
        Dragon::new(1, b.2, GridPosition::new(b.0, b.1)),
    ]
}

#[test]
fn heads_face_to_face_win() {
    assert!(heads_meet(&pair((3, 3, Direction::Right), (4, 3, Direction::Left))));
    assert!(heads_meet(&pair((4, 3, Direction::Left), (3, 3, Direction::Right))));
    assert!(heads_meet(&pair((3, 3, Direction::Up), (3, 4, Direction::Down))));
}

#[test]
fn heads_apart_do_not_win() {
    assert!(!heads_meet(&pair((3, 3, Direction::Right), (5, 3, Direction::Left))));
}

#[test]
fn heads_side_by_side_facing_the_same_way_do_not_win() {
    assert!(!heads_meet(&pair((3, 3, Direction::Right), (4, 3, Direction::Right))));
    assert!(!heads_meet(&pair((3, 3, Direction::Left), (4, 3, Direction::Left))));
}

#[test]
fn heads_back_to_back_do_not_win() {
    assert!(!heads_meet(&pair((3, 3, Direction::Left), (4, 3, Direction::Right))));
}

#[test]
fn heads_facing_across_a_corner_do_not_win() {
    assert!(!heads_meet(&pair((3, 3, Direction::Right), (4, 3, Direction::Down))));
    assert!(!heads_meet(&pair((3, 3, Direction::Right), (4, 4, Direction::Left))));
}

#[test]
fn fewer_than_two_heads_do_not_win() {
    assert!(!heads_meet(&Vec::new()));
    assert!(!heads_meet(&vec![Dragon::new(0, Direction::Up, GridPosition::new(0, 0))]));
}

#[test]
fn any_pair_among_many_wins() {
    let dragons = vec![
        Dragon::new(0, Direction::Up, GridPosition::new(0, 0)),
        Dragon::new(1, Direction::Down, GridPosition::new(7, 8)),
        Dragon::new(2, Direction::Right, GridPosition::new(5, 5)),
        Dragon::new(3, Direction::Up, GridPosition::new(7, 7)),
    ];
    assert!(heads_meet(&dragons));
}

#[test]
fn confronting_is_seen_from_both_sides() {
    let dragons = pair((3, 3, Direction::Right), (4, 3, Direction::Left));
    assert!(confronting(&dragons[0], &dragons[1]));
    assert!(confronting(&dragons[1], &dragons[0]));
    assert!(!confronting(&dragons[0], &dragons[0]));
}

#[test]
fn head_at_the_last_coordinate_confronts_nobody() {
    let dragons = pair((i32::MAX, 0, Direction::Right), (i32::MIN, 0, Direction::Left));
    assert!(!heads_meet(&dragons));
}

#[test]
fn detector_raises_a_fresh_timer() {
    let dragons = pair((3, 3, Direction::Right), (4, 3, Direction::Left));
    let mut win = None;
    assert!(check_win(&dragons, &mut win));
    assert_eq!(win, Some(WinTimer { elapsed: 0, just_finished: false }));
}

#[test]
fn detector_raises_nothing_without_a_meeting() {
    let dragons = pair((3, 3, Direction::Right), (5, 3, Direction::Left));
    let mut win = None;
    assert!(!check_win(&dragons, &mut win));
    assert_eq!(win, None);
}

#[test]
fn detector_leaves_a_pending_win_alone() {
    let dragons = pair((3, 3, Direction::Right), (4, 3, Direction::Left));
    let mut win = None;
    assert!(check_win(&dragons, &mut win));
    let mut timer = win.unwrap();
    timer.tick(1_000);
    let mut win = Some(timer);
    assert!(!check_win(&dragons, &mut win));
    assert_eq!(win, Some(WinTimer { elapsed: 1_000, just_finished: false }));
    let apart = pair((3, 3, Direction::Right), (5, 3, Direction::Left));
    assert!(!check_win(&apart, &mut win));
    assert_eq!(win, Some(WinTimer { elapsed: 1_000, just_finished: false }));
}

#[test]
fn win_delay_is_half_a_second() {
    assert_eq!(WIN_DELAY, 500_000_000);
}

#[test]
fn timer_counts_up_to_the_delay() {
    let mut timer = WinTimer::new();
    assert_eq!(timer, WinTimer { elapsed: 0, just_finished: false });
    assert!(!timer.finished());
    timer.tick(200_000_000);
    assert_eq!(timer, WinTimer { elapsed: 200_000_000, just_finished: false });
    timer.tick(299_999_999);
    assert_eq!(timer, WinTimer { elapsed: 499_999_999, just_finished: false });
    assert!(!timer.finished());
    assert!(!timer.just_finished());
    timer.tick(1);
    assert_eq!(timer, WinTimer { elapsed: 500_000_000, just_finished: true });
    assert!(timer.finished());
    assert!(timer.just_finished());
}

#[test]
fn timer_finishes_once_and_stays_finished() {
    let mut timer = WinTimer::new();
    timer.tick(700_000_000);
    assert_eq!(timer, WinTimer { elapsed: 500_000_000, just_finished: true });
    timer.tick(5);
    assert_eq!(timer, WinTimer { elapsed: 500_000_000, just_finished: false });
    assert!(timer.finished());
}

#[test]
fn timer_takes_the_longest_tick() {
    let mut timer = WinTimer::new();
    timer.tick(1);
    timer.tick(u64::MAX);
    assert_eq!(timer, WinTimer { elapsed: 500_000_000, just_finished: true });
}

#[test]
fn timer_check_reports_the_expiry_tick_only() {
    let mut timer = WinTimer::new();
    assert!(!check_win_timer(&mut timer, 0));
    assert!(!check_win_timer(&mut timer, 499_999_999));
    assert!(check_win_timer(&mut timer, 1));
    assert!(!check_win_timer(&mut timer, 1));
    assert_eq!(timer.elapsed, 500_000_000);
}
