//! What the simulator says in answer to a command.

use vstd::prelude::*;
use vstd::string::StringExecFns;
use crate::decimal::{decimal, push_decimal};
use crate::direction::Direction;
use crate::grid::{draw, grid_text};

verus! {

/// One message of the simulator.
#[derive(Clone, Debug, PartialEq, Eq)]
pub enum Report {
    /// A forward move was refused because it would leave the grid.
    Blocked,
    /// Where the robot stands and which way it faces.
    Status { x: i32, y: i32, facing: Direction },
    /// A picture of the grid with the robot on `(x, y)`.
    Grid { x: i32, y: i32 },
    /// A navigation target was refused because it lies off the grid.
    TargetOutOfBounds,
    /// Navigation has come to rest on `(x, y)`.
    Arrived { x: i32, y: i32 },
    /// The objective with this description has been reached.
    MissionCompleted { description: String },
    /// An objective with this description has been set.
    MissionAssigned { description: String },
    /// `GOTO` was given with the wrong number of arguments.
    GotoUsage,
    /// `MISSION` was given with too few arguments.
    MissionUsage,
    /// A coordinate argument was not an integer.
    InvalidCoordinates,
    /// The first word of the line is no command.
    UnknownCommand,
    /// The session has ended.
    Farewell,
}

/// Mathematical model of a [`Report`].
pub enum ReportView {
    Blocked,
    Status { x: int, y: int, facing: Direction },
    Grid { x: int, y: int },
    TargetOutOfBounds,
    Arrived { x: int, y: int },
    MissionCompleted { description: Seq<char> },
    MissionAssigned { description: Seq<char> },
    GotoUsage,
    MissionUsage,
    InvalidCoordinates,
    UnknownCommand,
    Farewell,
}

impl View for Report {
    type V = ReportView;

    open spec fn view(&self) -> ReportView {
        match *self {
            Report::Blocked => ReportView::Blocked,
            Report::Status { x, y, facing } => ReportView::Status {
                x: x as int,
                y: y as int,
                facing,
            },
            Report::Grid { x, y } => ReportView::Grid { x: x as int, y: y as int },
            Report::TargetOutOfBounds => ReportView::TargetOutOfBounds,
            Report::Arrived { x, y } => ReportView::Arrived { x: x as int, y: y as int },
            Report::MissionCompleted { description } => ReportView::MissionCompleted {
                description: description@,
            },
            Report::MissionAssigned { description } => ReportView::MissionAssigned {
                description: description@,
            },
            Report::GotoUsage => ReportView::GotoUsage,
            Report::MissionUsage => ReportView::MissionUsage,
            Report::InvalidCoordinates => ReportView::InvalidCoordinates,
            Report::UnknownCommand => ReportView::UnknownCommand,
            Report::Farewell => ReportView::Farewell,
        }
    }
}

impl ReportView {
    /// The message in words, as it is shown to the user.
    pub open spec fn text(self) -> Seq<char> {
        match self {
            ReportView::Blocked => "⚠️  Cannot move forward — would exit the grid!"@,
            ReportView::Status { x, y, facing } => "Robot is at ("@ + decimal(x) + ", "@ + decimal(
                y,
            ) + ") facing "@ + facing.name(),
            ReportView::Grid { x, y } => grid_text(x, y),
            ReportView::TargetOutOfBounds => "Target out of bounds!"@,
            ReportView::Arrived { x, y } => "🎯 Arrived at ("@ + decimal(x) + ", "@ + decimal(y)
                + ")!"@,
            ReportView::MissionCompleted { description } => "✅ Mission completed: "@
                + description,
            ReportView::MissionAssigned { description } => "New mission assigned: "@
                + description,
            ReportView::GotoUsage => "Usage: GOTO x y"@,
            ReportView::MissionUsage => "Usage: MISSION x y description"@,
            ReportView::InvalidCoordinates => "Invalid coordinates. Please enter integers."@,
            ReportView::UnknownCommand =>
                "Unknown command. Try FORWARD, LEFT, RIGHT, STATUS, MAP, GOTO x y, or QUIT."@,
            ReportView::Farewell => "Exiting the simulator. Goodbye!"@,
        }
    }
}

impl Report {
    /// Writes the message out in words.
    pub fn to_text(&self) -> (text: String)
        ensures
            text@ == self@.text(),
    {
        match self {
            Report::Blocked => String::from_str("⚠️  Cannot move forward — would exit the grid!"),
            Report::Status { x, y, facing } => {
                let mut text = String::from_str("Robot is at (");
                push_decimal(&mut text, *x);
                text.append(", ");
                push_decimal(&mut text, *y);
                text.append(") facing ");
                text.append(facing.to_name());
                text
            },
            Report::Grid { x, y } => draw(*x, *y),
            Report::TargetOutOfBounds => String::from_str("Target out of bounds!"),
            Report::Arrived { x, y } => {
                let mut text = String::from_str("🎯 Arrived at (");
                push_decimal(&mut text, *x);
                text.append(", ");
                push_decimal(&mut text, *y);
                text.append(")!");
                text
            },
            Report::MissionCompleted { description } => {
                let mut text = String::from_str("✅ Mission completed: ");
                text.append(description.as_str());
                text
            },
            Report::MissionAssigned { description } => {
                let mut text = String::from_str("New mission assigned: ");
                text.append(description.as_str());
                text
            },
            Report::GotoUsage => String::from_str("Usage: GOTO x y"),
            Report::MissionUsage => String::from_str("Usage: MISSION x y description"),
            Report::InvalidCoordinates => String::from_str(
                "Invalid coordinates. Please enter integers.",
            ),
            Report::UnknownCommand => String::from_str(
                "Unknown command. Try FORWARD, LEFT, RIGHT, STATUS, MAP, GOTO x y, or QUIT.",
            ),
            Report::Farewell => String::from_str("Exiting the simulator. Goodbye!"),
        }
    }
}

/// Models of the reports in `reports`, in order.
pub open spec fn report_views(reports: Seq<Report>) -> Seq<ReportView> {
    reports.map_values(|r: Report| r@)
}

/// Appending a report appends its model.
pub proof fn lemma_report_views_push(reports: Seq<Report>, r: Report)
    ensures
        report_views(reports.push(r)) == report_views(reports).push(r@),
{
    assert(report_views(reports.push(r)) =~= report_views(reports).push(r@));
}

} // verus!
