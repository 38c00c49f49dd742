//! The robot: where it stands, which way it faces, the objective it carries,
//! and the operations that change them.

use vstd::prelude::*;
use vstd::math::abs;
use crate::direction::Direction;
use crate::grid::{in_bounds, within_grid, GRID_HEIGHT, GRID_WIDTH};
use crate::mission::{arrive, mission_on_arrival, mission_view, Mission, MissionView};
use crate::report::{lemma_report_views_push, report_views, Report, ReportView};

verus! {

/// Mathematical model of a [`Robot`].
pub struct RobotView {
    pub x: int,
    pub y: int,
    pub facing: Direction,
    pub mission: Option<MissionView>,
}

/// The status reports of a walk along row `y` from column `from` to column
/// `to`: one for each cell entered, in the order of entering.
pub open spec fn walk_x(from: int, to: int, y: int) -> Seq<ReportView> {
    if from <= to {
        Seq::new(
            (to - from) as nat,
            |i: int| ReportView::Status { x: from + i + 1, y, facing: Direction::East },
        )
    } else {
        Seq::new(
            (from - to) as nat,
            |i: int| ReportView::Status { x: from - i - 1, y, facing: Direction::West },
        )
    }
}

/// The status reports of a walk along column `x` from row `from` to row `to`:
/// one for each cell entered, in the order of entering.
pub open spec fn walk_y(from: int, to: int, x: int) -> Seq<ReportView> {
    if from <= to {
        Seq::new(
            (to - from) as nat,
            |i: int| ReportView::Status { x, y: from + i + 1, facing: Direction::North },
        )
    } else {
        Seq::new(
            (from - to) as nat,
            |i: int| ReportView::Status { x, y: from - i - 1, facing: Direction::South },
        )
    }
}

/// What is said of the objective on coming to rest on `(x, y)`: that it has
/// been reached, if it is an objective for that cell, else nothing.
pub open spec fn completion_reports(mission: Option<MissionView>, x: int, y: int) -> Seq<
    ReportView,
> {
    match mission {
        Some(m) if m.is_at(x, y) => seq![ReportView::MissionCompleted { description: m.description }],
        _ => Seq::empty(),
    }
}

impl RobotView {
    /// A robot in the corner `(0, 0)`, facing north, with no objective.
    pub open spec fn initial() -> RobotView {
        RobotView { x: 0, y: 0, facing: Direction::North, mission: None }
    }

    /// Whether the robot stands on the grid.
    pub open spec fn in_grid(self) -> bool {
        in_bounds(self.x, self.y)
    }

    /// The robot after a quarter turn counter-clockwise.
    pub open spec fn turn_left(self) -> RobotView {
        RobotView { facing: self.facing.left(), ..self }
    }

    /// The robot after a quarter turn clockwise.
    pub open spec fn turn_right(self) -> RobotView {
        RobotView { facing: self.facing.right(), ..self }
    }

    /// Whether the cell one step ahead lies on the grid.
    pub open spec fn can_advance(self) -> bool {
        in_bounds(self.x + self.facing.dx(), self.y + self.facing.dy())
    }

    /// The robot after an attempt to step forward: one cell ahead if that
    /// cell lies on the grid, unchanged if not.
    pub open spec fn move_forward(self) -> RobotView {
        if self.can_advance() {
            RobotView { x: self.x + self.facing.dx(), y: self.y + self.facing.dy(), ..self }
        } else {
            self
        }
    }

    /// The report on where the robot stands and which way it faces.
    pub open spec fn status(self) -> ReportView {
        ReportView::Status { x: self.x, y: self.y, facing: self.facing }
    }

    /// The report that pictures the grid with the robot on it.
    pub open spec fn draw_grid(self) -> ReportView {
        ReportView::Grid { x: self.x, y: self.y }
    }

    /// The way the robot faces after walking to `(tx, ty)`: along the last
    /// leg on which it took a step, or as before if it took none.
    pub open spec fn facing_after_goto(self, tx: int, ty: int) -> Direction {
        if self.y < ty {
            Direction::North
        } else if self.y > ty {
            Direction::South
        } else if self.x < tx {
            Direction::East
        } else if self.x > tx {
            Direction::West
        } else {
            self.facing
        }
    }

    /// The robot after being sent to `(tx, ty)`: unchanged if the target
    /// lies off the grid; otherwise on the target, facing along its last
    /// step, its objective marked as reached if it was for that cell.
    pub open spec fn goto(self, tx: int, ty: int) -> RobotView {
        if in_bounds(tx, ty) {
            RobotView {
                x: tx,
                y: ty,
                facing: self.facing_after_goto(tx, ty),
                mission: mission_on_arrival(self.mission, tx, ty),
            }
        } else {
            self
        }
    }

    /// What is reported while being sent to `(tx, ty)`: a refusal if the
    /// target lies off the grid; otherwise the status after each step, first
    /// along the row and then along the column, then the arrival, then the
    /// objective's completion if it was for that cell.
    pub open spec fn goto_reports(self, tx: int, ty: int) -> Seq<ReportView> {
        if in_bounds(tx, ty) {
            walk_x(self.x, tx, self.y) + walk_y(self.y, ty, tx) + seq![
                ReportView::Arrived { x: tx, y: ty },
            ] + completion_reports(self.mission, tx, ty)
        } else {
            seq![ReportView::TargetOutOfBounds]
        }
    }

    /// The robot after being given a new objective, which replaces any
    /// earlier one and is not yet reached.
    pub open spec fn assign_mission(self, x: int, y: int, description: Seq<char>) -> RobotView {
        RobotView {
            mission: Some(
                MissionView { target_x: x, target_y: y, description, completed: false },
            ),
            ..self
        }
    }
}

/// A robot on the grid.
#[derive(Debug)]
pub struct Robot {
    x: i32,
    y: i32,
    facing: Direction,
    mission: Option<Mission>,
}

impl View for Robot {
    type V = RobotView;

    closed spec fn view(&self) -> RobotView {
        RobotView {
            x: self.x as int,
            y: self.y as int,
            facing: self.facing,
            mission: mission_view(self.mission),
        }
    }
}

impl Robot {
    /// What holds of every robot at all times: it stands on the grid.
    #[verifier::type_invariant]
    pub open spec fn on_grid(self) -> bool {
        self@.in_grid()
    }

    /// A robot in the corner `(0, 0)`, facing north, with no objective.
    pub fn new() -> (robot: Robot)
        ensures
            robot@ == RobotView::initial(),
    {
        Robot { x: 0, y: 0, facing: Direction::North, mission: None }
    }

    /// The column the robot stands in.
    pub fn x(&self) -> (x: i32)
        ensures
            x == self@.x,
            0 <= x < GRID_WIDTH,
    {
        proof {
            use_type_invariant(self);
        }
        self.x
    }

    /// The row the robot stands in.
    pub fn y(&self) -> (y: i32)
        ensures
            y == self@.y,
            0 <= y < GRID_HEIGHT,
    {
        proof {
            use_type_invariant(self);
        }
        self.y
    }

    /// The way the robot faces.
    pub fn facing(&self) -> (facing: Direction)
        ensures
            facing == self@.facing,
    {
        self.facing
    }

    /// The objective the robot carries, if any.
    pub fn mission(&self) -> (mission: Option<&Mission>)
        ensures
            match mission {
                Some(m) => self@.mission == Some(m@),
                None => self@.mission is None,
            },
    {
        self.mission.as_ref()
    }

    /// Turns the robot a quarter counter-clockwise.
    pub fn turn_left(&mut self)
        ensures
            final(self)@ == old(self)@.turn_left(),
            final(self)@.in_grid(),
    {
        proof {
            use_type_invariant(&*self);
        }
        self.facing = self.facing.turned_left();
    }

    /// Turns the robot a quarter clockwise.
    pub fn turn_right(&mut self)
        ensures
            final(self)@ == old(self)@.turn_right(),
            final(self)@.in_grid(),
    {
        proof {
            use_type_invariant(&*self);
        }
        self.facing = self.facing.turned_right();
    }

    /// Steps one cell forward if that cell lies on the grid. If it does
    /// not, the robot stays as it is and the refusal is reported.
    pub fn move_forward(&mut self) -> (report: Option<Report>)
        ensures
            final(self)@ == old(self)@.move_forward(),
            final(self)@.in_grid(),
            report == if old(self)@.can_advance() {
                None
            } else {
                Some(Report::Blocked)
            },
    {
        proof {
            use_type_invariant(&*self);
        }
        let (new_x, new_y): (i32, i32) = match self.facing {
            Direction::North => (self.x, self.y + 1),
            Direction::East => (self.x + 1, self.y),
            Direction::South => (self.x, self.y - 1),
            Direction::West => (self.x - 1, self.y),
        };
        if within_grid(new_x, new_y) {
            self.x = new_x;
            self.y = new_y;
            None
        } else {
            Some(Report::Blocked)
        }
    }

    /// Reports the picture of the grid with the robot on it.
    pub fn draw_grid(&self) -> (report: Report)
        ensures
            report@ == self@.draw_grid(),
    {
        Report::Grid { x: self.x, y: self.y }
    }

    /// Gives the robot a new objective in place of any earlier one, and
    /// reports it. The target may lie anywhere, on the grid or off it.
    pub fn assign_mission(&mut self, x: i32, y: i32, description: String) -> (report: Report)
        ensures
            final(self)@ == old(self)@.assign_mission(x as int, y as int, description@),
            final(self)@.in_grid(),
            report@ == (ReportView::MissionAssigned { description: description@ }),
    {
        proof {
            use_type_invariant(&*self);
        }
        let report = Report::MissionAssigned { description: description.clone() };
        self.mission = Some(Mission { target_x: x, target_y: y, description, completed: false });
        report
    }

    /// Sends the robot to `(target_x, target_y)`. A target off the grid is
    /// refused and the robot stays as it is. Otherwise the robot walks there
    /// one cell at a time, first along its row and then along the column,
    /// reporting its status after every step; on arrival an objective for
    /// that cell is marked as reached.
    pub fn goto(&mut self, target_x: i32, target_y: i32) -> (reports: Vec<Report>)
        ensures
            final(self)@ == old(self)@.goto(target_x as int, target_y as int),
            final(self)@.in_grid(),
            report_views(reports@) == old(self)@.goto_reports(target_x as int, target_y as int),
    {
        proof {
            use_type_invariant(&*self);
        }
        let mut reports: Vec<Report> = Vec::new();
        if !within_grid(target_x, target_y) {
            reports.push(Report::TargetOutOfBounds);
            proof {
                lemma_report_views_push(Seq::empty(), Report::TargetOutOfBounds);
            }
            return reports;
        }
        let ghost start = self@;
        assert(report_views(reports@) =~= walk_x(start.x, self.x as int, start.y));

        while self.x != target_x
            invariant
                in_bounds(target_x as int, target_y as int),
                in_bounds(self.x as int, self.y as int),
                start.x <= self.x <= target_x || target_x <= self.x <= start.x,
                self.y == start.y,
                self.facing == start.facing_after_goto(self.x as int, start.y),
                mission_view(self.mission) == start.mission,
                report_views(reports@) == walk_x(start.x, self.x as int, start.y),
            decreases abs(target_x - self.x),
        {
            if self.x < target_x {
                self.facing = Direction::East;
            } else {
                self.facing = Direction::West;
            }
            let ghost before = reports@;
            let ghost from = self.x as int;
            self.move_forward();
            let status = self.status();
            reports.push(status);
            proof {
                lemma_report_views_push(before, status);
                assert(walk_x(start.x, from, start.y).push(status@) =~= walk_x(
                    start.x,
                    self.x as int,
                    start.y,
                ));
            }
        }

        let ghost row = reports@;
        assert(report_views(reports@) =~= report_views(row) + walk_y(
            start.y,
            self.y as int,
            target_x as int,
        ));
        while self.y != target_y
            invariant
                in_bounds(target_x as int, target_y as int),
                in_bounds(self.x as int, self.y as int),
                self.x == target_x,
                start.y <= self.y <= target_y || target_y <= self.y <= start.y,
                self.facing == start.facing_after_goto(target_x as int, self.y as int),
                mission_view(self.mission) == start.mission,
                report_views(row) == walk_x(start.x, target_x as int, start.y),
                report_views(reports@) == report_views(row) + walk_y(
                    start.y,
                    self.y as int,
                    target_x as int,
                ),
            decreases abs(target_y - self.y),
        {
            if self.y < target_y {
                self.facing = Direction::North;
            } else {
                self.facing = Direction::South;
            }
            let ghost before = reports@;
            let ghost from = self.y as int;
            self.move_forward();
            let status = self.status();
            reports.push(status);
            proof {
                lemma_report_views_push(before, status);
                assert((report_views(row) + walk_y(start.y, from, target_x as int)).push(status@)
                    =~= report_views(row) + walk_y(start.y, self.y as int, target_x as int));
            }
        }

        let ghost walked = reports@;
        let arrived = Report::Arrived { x: self.x, y: self.y };
        reports.push(arrived);
        proof {
            lemma_report_views_push(walked, arrived);
        }
        let ghost announced = reports@;
        let mut mission: Option<Mission> = None;
        std::mem::swap(&mut mission, &mut self.mission);
        let reached = arrive(&mut mission, target_x, target_y);
        self.mission = mission;
        match reached {
            Some(description) => {
                let completed = Report::MissionCompleted { description };
                reports.push(completed);
                proof {
                    lemma_report_views_push(announced, completed);
                }
            },
            None => {},
        }
        assert(report_views(reports@) =~= start.goto_reports(target_x as int, target_y as int));
        reports
    }

    /// Reports where the robot stands and which way it faces.
    pub fn status(&self) -> (report: Report)
        ensures
            report@ == self@.status(),
    {
        Report::Status { x: self.x, y: self.y, facing: self.facing }
    }
}

} // verus!
