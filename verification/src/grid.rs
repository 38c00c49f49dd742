//! The grid's extent and the test for a cell lying on it.

use vstd::prelude::*;
use vstd::string::StringExecFns;

verus! {

/// Number of columns; valid x coordinates are `0..GRID_WIDTH`.
pub const GRID_WIDTH: i32 = 10;

/// Number of rows; valid y coordinates are `0..GRID_HEIGHT`.
pub const GRID_HEIGHT: i32 = 10;

/// Whether the cell `(x, y)` lies on the grid.
pub open spec fn in_bounds(x: int, y: int) -> bool {
    0 <= x < GRID_WIDTH && 0 <= y < GRID_HEIGHT
}

/// Tests whether the cell `(x, y)` lies on the grid.
pub fn within_grid(x: i32, y: i32) -> (inside: bool)
    ensures
        inside == in_bounds(x as int, y as int),
{
    x >= 0 && x < GRID_WIDTH && y >= 0 && y < GRID_HEIGHT
}

/// The picture of one cell: marked if the robot stands on it.
pub open spec fn cell_text(occupied: bool) -> Seq<char> {
    if occupied {
        " R "@
    } else {
        " . "@
    }
}

/// The picture of the cells in columns `0..n` of row `row`, left to right,
/// with the robot on `(robot_x, robot_y)`.
pub open spec fn row_text(robot_x: int, robot_y: int, row: int, n: nat) -> Seq<char>
    decreases n,
{
    if n == 0 {
        Seq::empty()
    } else {
        row_text(robot_x, robot_y, row, (n - 1) as nat) + cell_text(
            robot_x == n - 1 && robot_y == row,
        )
    }
}

/// The picture of the topmost `n` rows, from the top down, each closed by a
/// line break.
pub open spec fn rows_text(robot_x: int, robot_y: int, n: nat) -> Seq<char>
    decreases n,
{
    if n == 0 {
        Seq::empty()
    } else {
        rows_text(robot_x, robot_y, (n - 1) as nat) + row_text(
            robot_x,
            robot_y,
            GRID_HEIGHT - n,
            GRID_WIDTH as nat,
        ) + "\n"@
    }
}

/// The picture of the whole grid with the robot on `(robot_x, robot_y)`: a
/// heading, then every row from the highest y down to 0, each from x = 0
/// rightwards.
pub open spec fn grid_text(robot_x: int, robot_y: int) -> Seq<char> {
    "\nCurrent Grid:\n"@ + rows_text(robot_x, robot_y, GRID_HEIGHT as nat)
}

/// Draws the grid with the robot on `(robot_x, robot_y)`.
pub fn draw(robot_x: i32, robot_y: i32) -> (picture: String)
    ensures
        picture@ == grid_text(robot_x as int, robot_y as int),
{
    let mut picture = String::from_str("\nCurrent Grid:\n");
    let ghost heading = picture@;
    let mut done: i32 = 0;
    assert(picture@ =~= heading + rows_text(robot_x as int, robot_y as int, 0));
    while done < GRID_HEIGHT
        invariant
            0 <= done <= GRID_HEIGHT,
            heading == "\nCurrent Grid:\n"@,
            picture@ == heading + rows_text(robot_x as int, robot_y as int, done as nat),
        decreases GRID_HEIGHT - done,
    {
        let row = GRID_HEIGHT - 1 - done;
        let ghost above = picture@;
        let mut col: i32 = 0;
        assert(picture@ =~= above + row_text(robot_x as int, robot_y as int, row as int, 0));
        while col < GRID_WIDTH
            invariant
                0 <= col <= GRID_WIDTH,
                picture@ == above + row_text(
                    robot_x as int,
                    robot_y as int,
                    row as int,
                    col as nat,
                ),
            decreases GRID_WIDTH - col,
        {
            let ghost left = picture@;
            if robot_x == col && robot_y == row {
                picture.append(" R ");
            } else {
                picture.append(" . ");
            }
            col += 1;
            assert(picture@ =~= above + row_text(
                robot_x as int,
                robot_y as int,
                row as int,
                col as nat,
            ));
        }
        picture.append("\n");
        done += 1;
        assert(picture@ =~= heading + rows_text(robot_x as int, robot_y as int, done as nat));
    }
    picture
}

} // verus!
