//! Laws that hold of the robot whatever it is asked to do.

use vstd::prelude::*;
use vstd::math::abs;
use crate::command::{CommandView, LineView};
use crate::direction::Direction;
use crate::grid::in_bounds;
use crate::mission::MissionView;
use crate::report::ReportView;
use crate::robot::{completion_reports, walk_x, walk_y, RobotView};

verus! {

/// Four quarter turns the same way bring a direction back to where it was.
pub proof fn lemma_four_turns_of_direction(d: Direction)
    ensures
        d.left().left().left().left() == d,
        d.right().right().right().right() == d,
{
}

/// Four left turns leave the robot exactly as it was.
pub proof fn lemma_four_left_turns(s: RobotView)
    ensures
        s.turn_left().turn_left().turn_left().turn_left() == s,
{
}

/// Four right turns leave the robot exactly as it was.
pub proof fn lemma_four_right_turns(s: RobotView)
    ensures
        s.turn_right().turn_right().turn_right().turn_right() == s,
{
}

/// A forward move either shifts the robot by one cell along one axis and
/// leaves the other coordinate alone, or, where that cell lies off the grid,
/// leaves the robot exactly as it was. It never turns the robot or touches
/// its objective.
pub proof fn lemma_move_forward_is_one_step(s: RobotView)
    ensures
        s.move_forward().facing == s.facing,
        s.move_forward().mission == s.mission,
        s.can_advance() ==> {
            let t = s.move_forward();
            ||| t.y == s.y && abs(t.x - s.x) == 1
            ||| t.x == s.x && abs(t.y - s.y) == 1
        },
        !s.can_advance() ==> s.move_forward() == s,
{
}

/// No command takes the robot off the grid.
pub proof fn lemma_execute_stays_on_grid(s: RobotView, command: CommandView)
    requires
        s.in_grid(),
    ensures
        s.execute(command).in_grid(),
{
}

/// The robot after answering the lines `lines` one after another.
pub open spec fn run(s: RobotView, lines: Seq<LineView>) -> RobotView
    decreases lines.len(),
{
    if lines.len() == 0 {
        s
    } else {
        run(s, lines.drop_last()).respond(lines.last())
    }
}

/// A robot that starts on the grid is on the grid after any sequence of
/// lines, and the robot as first made starts on the grid.
pub proof fn lemma_run_stays_on_grid(s: RobotView, lines: Seq<LineView>)
    requires
        s.in_grid(),
    ensures
        run(s, lines).in_grid(),
        RobotView::initial().in_grid(),
    decreases lines.len(),
{
    if lines.len() > 0 {
        lemma_run_stays_on_grid(s, lines.drop_last());
    }
}

/// Sent to a cell on the grid, the robot ends on that cell, after exactly as
/// many steps as the two coordinates differ by in sum. Its reports are one
/// status per step, each a cell farther from the start and a cell nearer
/// the target than the one before, then the arrival, then at most the
/// completion of its objective.
pub proof fn lemma_goto_reaches_target(s: RobotView, tx: int, ty: int)
    requires
        in_bounds(tx, ty),
    ensures
        s.goto(tx, ty).x == tx,
        s.goto(tx, ty).y == ty,
        ({
            let reports = s.goto_reports(tx, ty);
            let steps = abs(tx - s.x) + abs(ty - s.y);
            &&& reports.len() == steps + 1 + completion_reports(s.mission, tx, ty).len()
            &&& completion_reports(s.mission, tx, ty).len() <= 1
            &&& forall|i: int|
                0 <= i < steps ==> (#[trigger] reports[i] matches ReportView::Status { x, y, .. }
                    && abs(x - s.x) + abs(y - s.y) == i + 1 && abs(tx - x) + abs(ty - y) == steps
                    - (i + 1))
            &&& reports[steps as int] == (ReportView::Arrived { x: tx, y: ty })
            &&& forall|i: int|
                steps < i < reports.len() ==> #[trigger] reports[i] is MissionCompleted
        }),
{
    let reports = s.goto_reports(tx, ty);
    let along = walk_x(s.x, tx, s.y);
    let up = walk_y(s.y, ty, tx);
    assert(along.len() == abs(tx - s.x));
    assert(up.len() == abs(ty - s.y));
    assert forall|i: int| 0 <= i < along.len() + up.len() implies (
    #[trigger] reports[i] matches ReportView::Status { x, y, .. } && abs(x - s.x) + abs(y - s.y)
        == i + 1 && abs(tx - x) + abs(ty - y) == along.len() + up.len() - (i + 1)) by {
        if i < along.len() {
            assert(reports[i] == along[i]);
        } else {
            assert(reports[i] == up[i - along.len()]);
        }
    }
}

/// Sent to a cell off the grid, the robot stays exactly as it was and
/// reports the refusal, and nothing else.
pub proof fn lemma_goto_refuses_target_off_grid(s: RobotView, tx: int, ty: int)
    requires
        !in_bounds(tx, ty),
    ensures
        s.goto(tx, ty) == s,
        s.goto_reports(tx, ty) == seq![ReportView::TargetOutOfBounds],
{
}

/// A robot given an objective and then sent somewhere has reached the
/// objective exactly if it was sent to the objective's cell and that cell
/// lies on the grid.
pub proof fn lemma_goto_completes_mission_at_target(
    s: RobotView,
    x: int,
    y: int,
    description: Seq<char>,
    tx: int,
    ty: int,
)
    ensures
        s.assign_mission(x, y, description).goto(tx, ty).mission == Some(
            MissionView {
                target_x: x,
                target_y: y,
                description,
                completed: in_bounds(tx, ty) && tx == x && ty == y,
            },
        ),
{
}

/// An objective once reached stays reached until a new one is assigned.
pub proof fn lemma_completion_is_kept(s: RobotView, command: CommandView)
    requires
        s.mission matches Some(m) && m.completed,
        !(command is Mission),
    ensures
        s.execute(command).mission == s.mission,
{
}

} // verus!
