use tui_game_core::behavior::reactions::{flee_clearance_chebyshev, flee_goal_cell};
use tui_game_core::entity::GridPos;
use tui_game_core::math::chebyshev;

#[test]
fn flee_flee_clearance_is_double_trigger_range() {
    assert_eq!(flee_clearance_chebyshev(10), 20);
    assert_eq!(flee_clearance_chebyshev(7), 14);
}

#[test]
fn flee_flee_goal_is_clearance_away_from_threat() {
    let from = GridPos { x: 6, y: 5 };
    let threat = GridPos { x: 5, y: 5 };
    let goal = flee_goal_cell(from, threat, 20);
    assert_eq!(goal, GridPos { x: 25, y: 5 });
    assert!(chebyshev(goal, threat) >= 20);
}

#[test]
fn flee_flee_goal_stays_put_when_already_clear() {
    let from = GridPos { x: 30, y: 5 };
    let threat = GridPos { x: 5, y: 5 };
    assert_eq!(flee_goal_cell(from, threat, 20), from);
}

#[test]
fn reactions_flee_clearance_is_double_trigger_range() {
    assert_eq!(flee_clearance_chebyshev(10), 20);
    assert_eq!(flee_clearance_chebyshev(7), 14);
}

#[test]
fn reactions_flee_goal_is_clearance_away_from_threat() {
    let from = GridPos { x: 6, y: 5 };
    let threat = GridPos { x: 5, y: 5 };
    let goal = flee_goal_cell(from, threat, 20);
    assert_eq!(goal, GridPos { x: 25, y: 5 });
    assert!(chebyshev(goal, threat) >= 20);
}

#[test]
fn reactions_flee_goal_stays_put_when_already_clear() {
    let from = GridPos { x: 30, y: 5 };
    let threat = GridPos { x: 5, y: 5 };
    assert_eq!(flee_goal_cell(from, threat, 20), from);
}

#[test]
fn flee_goal_on_threat_cell_steps_east() {
    let here = GridPos { x: 3, y: 4 };
    assert_eq!(flee_goal_cell(here, here, 10), GridPos { x: 4, y: 4 });
}

#[test]
fn flee_goal_diagonal_keeps_direction() {
    let goal = flee_goal_cell(GridPos { x: 4, y: 6 }, GridPos { x: 5, y: 5 }, 5);
    assert_eq!(goal, GridPos { x: 0, y: 10 });
    assert!(chebyshev(goal, GridPos { x: 5, y: 5 }) >= 5);
}
