use robot_simulator::direction::Direction;
use robot_simulator::grid::{within_grid, GRID_HEIGHT, GRID_WIDTH};
use robot_simulator::report::Report;
use robot_simulator::robot::Robot;

fn status(x: i32, y: i32, facing: Direction) -> Report {
    Report::Status { x, y, facing }
}

fn robot_at(x: i32, y: i32) -> Robot {
    let mut robot = Robot::new();
    robot.goto(x, y);
    assert_eq!((robot.x(), robot.y()), (x, y));
    robot
}

fn face(robot: &mut Robot, facing: Direction) {
    for _ in 0..4 {
        if robot.facing() != facing {
            robot.turn_left();
        }
    }
    assert_eq!(robot.facing(), facing);
}

#[test]
fn new_robot_stands_in_the_corner_facing_north() {
    let robot = Robot::new();
    assert_eq!(robot.x(), 0);
    assert_eq!(robot.y(), 0);
    assert_eq!(robot.facing(), Direction::North);
    assert!(robot.mission().is_none());
}

#[test]
fn grid_is_ten_by_ten() {
    assert_eq!(GRID_WIDTH, 10);
    assert_eq!(GRID_HEIGHT, 10);
    assert!(within_grid(0, 0));
    assert!(within_grid(9, 9));
    assert!(!within_grid(10, 0));
    assert!(!within_grid(0, 10));
    assert!(!within_grid(-1, 0));
    assert!(!within_grid(0, -1));
    assert!(!within_grid(i32::MIN, i32::MAX));
}

#[test]
fn left_turns_run_north_west_south_east() {
    let mut robot = Robot::new();
    robot.turn_left();
    assert_eq!(robot.facing(), Direction::West);
    robot.turn_left();
    assert_eq!(robot.facing(), Direction::South);
    robot.turn_left();
    assert_eq!(robot.facing(), Direction::East);
    robot.turn_left();
    assert_eq!(robot.facing(), Direction::North);
}

#[test]
fn right_turns_run_north_east_south_west() {
    let mut robot = Robot::new();
    robot.turn_right();
    assert_eq!(robot.facing(), Direction::East);
    robot.turn_right();
    assert_eq!(robot.facing(), Direction::South);
    robot.turn_right();
    assert_eq!(robot.facing(), Direction::West);
    robot.turn_right();
    assert_eq!(robot.facing(), Direction::North);
}

#[test]
fn four_turns_restore_every_facing() {
    for start in [Direction::North, Direction::East, Direction::South, Direction::West] {
        let mut robot = robot_at(4, 6);
        face(&mut robot, start);
        for _ in 0..4 {
            robot.turn_left();
        }
        assert_eq!(robot.facing(), start);
        for _ in 0..4 {
            robot.turn_right();
        }
        assert_eq!(robot.facing(), start);
        assert_eq!((robot.x(), robot.y()), (4, 6));
    }
}

#[test]
fn turned_left_and_right_are_inverse() {
    for d in [Direction::North, Direction::East, Direction::South, Direction::West] {
        assert_eq!(d.turned_left().turned_right(), d);
        assert_eq!(d.turned_right().turned_left(), d);
    }
}

#[test]
fn forward_moves_one_cell_the_way_the_robot_faces() {
    let cases = [
        (Direction::North, (5, 6)),
        (Direction::East, (6, 5)),
        (Direction::South, (5, 4)),
        (Direction::West, (4, 5)),
    ];
    for (facing, expected) in cases {
        let mut robot = robot_at(5, 5);
        face(&mut robot, facing);
        assert_eq!(robot.move_forward(), None);
        assert_eq!((robot.x(), robot.y()), expected);
        assert_eq!(robot.facing(), facing);
    }
}

#[test]
fn forward_at_the_edge_is_refused_and_changes_nothing() {
    let cases = [
        (Direction::North, (3, 9)),
        (Direction::East, (9, 3)),
        (Direction::South, (3, 0)),
        (Direction::West, (0, 3)),
    ];
    for (facing, (x, y)) in cases {
        let mut robot = robot_at(x, y);
        face(&mut robot, facing);
        assert_eq!(robot.move_forward(), Some(Report::Blocked));
        assert_eq!((robot.x(), robot.y()), (x, y));
        assert_eq!(robot.facing(), facing);
    }
}

#[test]
fn forward_changes_one_axis_by_one_or_nothing() {
    for x in 0..GRID_WIDTH {
        for y in 0..GRID_HEIGHT {
            for facing in [Direction::North, Direction::East, Direction::South, Direction::West] {
                let mut robot = robot_at(x, y);
                face(&mut robot, facing);
                let report = robot.move_forward();
                let dx = (robot.x() - x).abs();
                let dy = (robot.y() - y).abs();
                match report {
                    None => assert_eq!(dx + dy, 1),
                    Some(Report::Blocked) => assert_eq!((dx, dy), (0, 0)),
                    other => panic!("unexpected report {:?}", other),
                }
                assert!(within_grid(robot.x(), robot.y()));
            }
        }
    }
}

#[test]
fn right_then_forward_from_the_corner() {
    let mut robot = Robot::new();
    robot.turn_right();
    assert_eq!(robot.move_forward(), None);
    assert_eq!(robot.facing(), Direction::East);
    assert_eq!((robot.x(), robot.y()), (1, 0));
}

#[test]
fn status_reports_position_and_facing() {
    let mut robot = robot_at(7, 2);
    face(&mut robot, Direction::West);
    assert_eq!(robot.status(), status(7, 2, Direction::West));
    assert_eq!((robot.x(), robot.y()), (7, 2));
}

#[test]
fn draw_grid_reports_the_position() {
    let robot = robot_at(1, 0);
    assert_eq!(robot.draw_grid(), Report::Grid { x: 1, y: 0 });
}

#[test]
fn goto_walks_the_row_first_and_then_the_column() {
    let mut robot = Robot::new();
    let reports = robot.goto(2, 3);
    assert_eq!(
        reports,
        vec![
            status(1, 0, Direction::East),
            status(2, 0, Direction::East),
            status(2, 1, Direction::North),
            status(2, 2, Direction::North),
            status(2, 3, Direction::North),
            Report::Arrived { x: 2, y: 3 },
        ]
    );
    assert_eq!((robot.x(), robot.y()), (2, 3));
    assert_eq!(robot.facing(), Direction::North);
}

#[test]
fn goto_walks_west_and_south_too() {
    let mut robot = robot_at(4, 4);
    let reports = robot.goto(2, 3);
    assert_eq!(
        reports,
        vec![
            status(3, 4, Direction::West),
            status(2, 4, Direction::West),
            status(2, 3, Direction::South),
            Report::Arrived { x: 2, y: 3 },
        ]
    );
    assert_eq!(robot.facing(), Direction::South);
}

#[test]
fn goto_along_the_row_only_leaves_the_robot_facing_along_it() {
    let mut robot = robot_at(4, 4);
    let reports = robot.goto(6, 4);
    assert_eq!(
        reports,
        vec![
            status(5, 4, Direction::East),
            status(6, 4, Direction::East),
            Report::Arrived { x: 6, y: 4 },
        ]
    );
    assert_eq!(robot.facing(), Direction::East);
}

#[test]
fn goto_to_where_the_robot_stands_only_arrives() {
    let mut robot = robot_at(3, 3);
    face(&mut robot, Direction::West);
    let reports = robot.goto(3, 3);
    assert_eq!(reports, vec![Report::Arrived { x: 3, y: 3 }]);
    assert_eq!((robot.x(), robot.y()), (3, 3));
    assert_eq!(robot.facing(), Direction::West);
}

#[test]
fn goto_reaches_every_cell_in_manhattan_distance_steps() {
    for (sx, sy) in [(0, 0), (9, 9), (4, 5), (0, 9), (9, 0)] {
        for tx in 0..GRID_WIDTH {
            for ty in 0..GRID_HEIGHT {
                let mut robot = robot_at(sx, sy);
                let reports = robot.goto(tx, ty);
                assert_eq!((robot.x(), robot.y()), (tx, ty));
                let steps = reports
                    .iter()
                    .filter(|r| matches!(r, Report::Status { .. }))
                    .count();
                assert_eq!(steps as i32, (tx - sx).abs() + (ty - sy).abs());
                assert_eq!(reports.len(), steps + 1);
                assert_eq!(reports[steps], Report::Arrived { x: tx, y: ty });
            }
        }
    }
}

#[test]
fn goto_crosses_the_whole_grid_in_eighteen_steps() {
    let mut robot = Robot::new();
    let reports = robot.goto(9, 9);
    assert_eq!(reports.len(), 19);
    assert_eq!(reports[8], status(9, 0, Direction::East));
    assert_eq!(reports[17], status(9, 9, Direction::North));
    assert_eq!(reports[18], Report::Arrived { x: 9, y: 9 });
}

#[test]
fn goto_off_the_grid_is_refused_and_changes_nothing() {
    for (tx, ty) in [(15, 2), (10, 0), (0, 10), (-1, 5), (5, -1), (i32::MAX, i32::MIN)] {
        let mut robot = robot_at(6, 1);
        face(&mut robot, Direction::South);
        let reports = robot.goto(tx, ty);
        assert_eq!(reports, vec![Report::TargetOutOfBounds]);
        assert_eq!((robot.x(), robot.y()), (6, 1));
        assert_eq!(robot.facing(), Direction::South);
    }
}

#[test]
fn assign_mission_reports_and_stores_the_objective() {
    let mut robot = Robot::new();
    let report = robot.assign_mission(5, 5, String::from("collect samples"));
    assert_eq!(
        report,
        Report::MissionAssigned {
            description: String::from("collect samples")
        }
    );
    let mission = robot.mission().unwrap();
    assert_eq!(mission.target_x, 5);
    assert_eq!(mission.target_y, 5);
    assert_eq!(mission.description, "collect samples");
    assert!(!mission.completed);
    assert_eq!((robot.x(), robot.y()), (0, 0));
}

#[test]
fn mission_is_completed_on_reaching_its_target() {
    let mut robot = Robot::new();
    robot.assign_mission(5, 5, String::from("collect samples"));
    let reports = robot.goto(5, 5);
    assert!(robot.mission().unwrap().completed);
    assert_eq!(reports.len(), 12);
    assert_eq!(reports[10], Report::Arrived { x: 5, y: 5 });
    assert_eq!(
        reports[11],
        Report::MissionCompleted {
            description: String::from("collect samples")
        }
    );
}

#[test]
fn mission_is_not_completed_elsewhere() {
    let mut robot = Robot::new();
    robot.assign_mission(5, 5, String::from("collect samples"));
    let reports = robot.goto(3, 3);
    assert!(!robot.mission().unwrap().completed);
    assert_eq!(reports.len(), 7);
    assert_eq!(reports[6], Report::Arrived { x: 3, y: 3 });
}

#[test]
fn mission_is_completed_without_a_step_when_the_robot_stands_on_it() {
    let mut robot = robot_at(2, 2);
    robot.assign_mission(2, 2, String::from("hold"));
    assert!(!robot.mission().unwrap().completed);
    let reports = robot.goto(2, 2);
    assert_eq!(
        reports,
        vec![
            Report::Arrived { x: 2, y: 2 },
            Report::MissionCompleted {
                description: String::from("hold")
            },
        ]
    );
    assert!(robot.mission().unwrap().completed);
}

#[test]
fn completed_mission_stays_completed() {
    let mut robot = Robot::new();
    robot.assign_mission(1, 1, String::from("scout"));
    robot.goto(1, 1);
    assert!(robot.mission().unwrap().completed);
    robot.goto(4, 4);
    robot.turn_left();
    robot.move_forward();
    robot.goto(20, 20);
    assert!(robot.mission().unwrap().completed);
    assert_eq!(robot.mission().unwrap().description, "scout");
}

#[test]
fn reaching_a_completed_mission_again_reports_it_again() {
    let mut robot = Robot::new();
    robot.assign_mission(1, 0, String::from("scout"));
    robot.goto(1, 0);
    robot.goto(0, 0);
    let reports = robot.goto(1, 0);
    assert_eq!(
        reports,
        vec![
            status(1, 0, Direction::East),
            Report::Arrived { x: 1, y: 0 },
            Report::MissionCompleted {
                description: String::from("scout")
            },
        ]
    );
}

#[test]
fn new_mission_replaces_the_old_one() {
    let mut robot = Robot::new();
    robot.assign_mission(1, 1, String::from("first"));
    robot.goto(1, 1);
    robot.assign_mission(2, 2, String::from("second"));
    let mission = robot.mission().unwrap();
    assert_eq!((mission.target_x, mission.target_y), (2, 2));
    assert_eq!(mission.description, "second");
    assert!(!mission.completed);
}

#[test]
fn mission_off_the_grid_is_accepted_and_never_completed() {
    let mut robot = Robot::new();
    let report = robot.assign_mission(12, -3, String::from("beyond"));
    assert_eq!(
        report,
        Report::MissionAssigned {
            description: String::from("beyond")
        }
    );
    assert_eq!(robot.goto(12, -3), vec![Report::TargetOutOfBounds]);
    let mission = robot.mission().unwrap();
    assert_eq!((mission.target_x, mission.target_y), (12, -3));
    assert!(!mission.completed);
    assert_eq!((robot.x(), robot.y()), (0, 0));
}

#[test]
fn robot_stays_on_the_grid_whatever_it_is_asked() {
    let mut robot = Robot::new();
    let mut seed: u32 = 12345;
    for _ in 0..5000 {
        seed = seed.wrapping_mul(1103515245).wrapping_add(12345);
        let pick = (seed >> 16) % 5;
        let a = ((seed >> 8) % 25) as i32 - 7;
        let b = ((seed >> 3) % 25) as i32 - 7;
        match pick {
            0 => {
                robot.move_forward();
            }
            1 => robot.turn_left(),
            2 => robot.turn_right(),
            3 => {
                robot.goto(a, b);
            }
            _ => {
                robot.assign_mission(a, b, String::from("anywhere"));
            }
        }
        assert!(0 <= robot.x() && robot.x() < 10);
        assert!(0 <= robot.y() && robot.y() < 10);
    }
}
