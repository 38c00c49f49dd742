//! One turn of a session: a line comes in, the robot acts on it, and what it
//! has to say goes out.

use vstd::prelude::*;
use crate::command::{parse_line, reading, Command, CommandView, Line, LineView, Rejection};
use crate::report::{lemma_report_views_push, report_views, Report, ReportView};
use crate::robot::{Robot, RobotView};

verus! {

impl Rejection {
    /// The report that tells the user of this rejection.
    pub open spec fn report(self) -> ReportView {
        match self {
            Rejection::GotoUsage => ReportView::GotoUsage,
            Rejection::MissionUsage => ReportView::MissionUsage,
            Rejection::InvalidCoordinates => ReportView::InvalidCoordinates,
            Rejection::UnknownCommand => ReportView::UnknownCommand,
        }
    }

    /// The report that tells the user of this rejection.
    pub fn to_report(self) -> (report: Report)
        ensures
            report@ == self.report(),
    {
        match self {
            Rejection::GotoUsage => Report::GotoUsage,
            Rejection::MissionUsage => Report::MissionUsage,
            Rejection::InvalidCoordinates => Report::InvalidCoordinates,
            Rejection::UnknownCommand => Report::UnknownCommand,
        }
    }
}

impl RobotView {
    /// The robot after carrying out `command`.
    pub open spec fn execute(self, command: CommandView) -> RobotView {
        match command {
            CommandView::Forward => self.move_forward(),
            CommandView::Left => self.turn_left(),
            CommandView::Right => self.turn_right(),
            CommandView::Status => self,
            CommandView::ShowMap => self,
            CommandView::Goto { x, y } => self.goto(x, y),
            CommandView::Mission { x, y, description } => self.assign_mission(x, y, description),
            CommandView::Quit => self,
        }
    }

    /// What the robot reports while carrying out `command`, in order.
    pub open spec fn execute_reports(self, command: CommandView) -> Seq<ReportView> {
        match command {
            CommandView::Forward => if self.can_advance() {
                Seq::empty()
            } else {
                seq![ReportView::Blocked]
            },
            CommandView::Left => Seq::empty(),
            CommandView::Right => Seq::empty(),
            CommandView::Status => seq![self.status()],
            CommandView::ShowMap => seq![self.draw_grid()],
            CommandView::Goto { x, y } => self.goto_reports(x, y),
            CommandView::Mission { x, y, description } => seq![
                ReportView::MissionAssigned { description },
            ],
            CommandView::Quit => seq![ReportView::Farewell],
        }
    }

    /// The robot after a line that amounts to `line`: only a command
    /// changes it.
    pub open spec fn respond(self, line: LineView) -> RobotView {
        match line {
            LineView::Command(command) => self.execute(command),
            _ => self,
        }
    }

    /// What is reported in answer to a line that amounts to `line`:
    /// nothing for a blank line, the reason for a rejected one, and for a
    /// command what the robot reports while carrying it out.
    pub open spec fn respond_reports(self, line: LineView) -> Seq<ReportView> {
        match line {
            LineView::Blank => Seq::empty(),
            LineView::Command(command) => self.execute_reports(command),
            LineView::Rejected(rejection) => seq![rejection.report()],
        }
    }
}

/// Whether a line that amounts to `line` ends the session.
pub open spec fn ends_session(line: LineView) -> bool {
    line == LineView::Command(CommandView::Quit)
}

/// The answer to one line of input.
#[derive(Debug)]
pub struct Outcome {
    /// What to show the user, in order.
    pub reports: Vec<Report>,
    /// Whether the session is over.
    pub quit: bool,
}

/// A list holding the one report `report`.
fn single(report: Report) -> (reports: Vec<Report>)
    ensures
        report_views(reports@) == seq![report@],
{
    let mut reports: Vec<Report> = Vec::new();
    reports.push(report);
    proof {
        lemma_report_views_push(Seq::empty(), report);
        assert(report_views(Seq::empty()).push(report@) =~= seq![report@]);
    }
    reports
}

/// A list holding the report `report`, if there is one.
fn at_most_one(report: Option<Report>) -> (reports: Vec<Report>)
    ensures
        report_views(reports@) == match report {
            Some(r) => seq![r@],
            None => Seq::empty(),
        },
{
    match report {
        Some(r) => single(r),
        None => {
            let reports: Vec<Report> = Vec::new();
            assert(report_views(reports@) =~= Seq::empty());
            reports
        },
    }
}

impl Robot {
    /// Carries out `command` and returns what the robot reports on the way.
    pub fn execute(&mut self, command: Command) -> (reports: Vec<Report>)
        ensures
            final(self)@ == old(self)@.execute(command@),
            final(self)@.in_grid(),
            report_views(reports@) == old(self)@.execute_reports(command@),
    {
        proof {
            use_type_invariant(&*self);
        }
        match command {
            Command::Forward => {
                let blocked = self.move_forward();
                at_most_one(blocked)
            },
            Command::Left => {
                self.turn_left();
                at_most_one(None)
            },
            Command::Right => {
                self.turn_right();
                at_most_one(None)
            },
            Command::Status => single(self.status()),
            Command::ShowMap => single(self.draw_grid()),
            Command::Goto { x, y } => self.goto(x, y),
            Command::Mission { x, y, description } => single(
                self.assign_mission(x, y, description),
            ),
            Command::Quit => single(Report::Farewell),
        }
    }

    /// Answers a line of input that has been read as `line`.
    pub fn answer(&mut self, line: Line) -> (outcome: Outcome)
        ensures
            final(self)@ == old(self)@.respond(line@),
            final(self)@.in_grid(),
            report_views(outcome.reports@) == old(self)@.respond_reports(line@),
            outcome.quit == ends_session(line@),
    {
        proof {
            use_type_invariant(&*self);
        }
        match line {
            Line::Blank => Outcome { reports: at_most_one(None), quit: false },
            Line::Command(Command::Quit) => Outcome {
                reports: self.execute(Command::Quit),
                quit: true,
            },
            Line::Command(command) => Outcome { reports: self.execute(command), quit: false },
            Line::Rejected(rejection) => Outcome {
                reports: single(rejection.to_report()),
                quit: false,
            },
        }
    }

    /// Answers the line of input `line`.
    pub fn respond(&mut self, line: &str) -> (outcome: Outcome)
        ensures
            final(self)@ == old(self)@.respond(reading(line@)),
            final(self)@.in_grid(),
            report_views(outcome.reports@) == old(self)@.respond_reports(reading(line@)),
            outcome.quit == ends_session(reading(line@)),
    {
        self.answer(parse_line(line))
    }
}

} // verus!
