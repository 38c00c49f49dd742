//! The command language: what a line of input asks for.

use vstd::prelude::*;
use vstd::string::StringExecFns;
use crate::decimal::{parse_decimal, parse_i32};
use crate::words::{join, join_words, split_words, texts, words};

verus! {

/// Something the user can ask of the simulator.
#[derive(Clone, Debug, PartialEq, Eq)]
pub enum Command {
    /// Step one cell forward.
    Forward,
    /// Turn a quarter counter-clockwise.
    Left,
    /// Turn a quarter clockwise.
    Right,
    /// Say where the robot stands and which way it faces.
    Status,
    /// Show the grid.
    ShowMap,
    /// Walk to the cell `(x, y)`.
    Goto { x: i32, y: i32 },
    /// Take on the objective of reaching `(x, y)`.
    Mission { x: i32, y: i32, description: String },
    /// End the session.
    Quit,
}

/// Mathematical model of a [`Command`].
pub enum CommandView {
    Forward,
    Left,
    Right,
    Status,
    ShowMap,
    Goto { x: int, y: int },
    Mission { x: int, y: int, description: Seq<char> },
    Quit,
}

impl View for Command {
    type V = CommandView;

    open spec fn view(&self) -> CommandView {
        match *self {
            Command::Forward => CommandView::Forward,
            Command::Left => CommandView::Left,
            Command::Right => CommandView::Right,
            Command::Status => CommandView::Status,
            Command::ShowMap => CommandView::ShowMap,
            Command::Goto { x, y } => CommandView::Goto { x: x as int, y: y as int },
            Command::Mission { x, y, description } => CommandView::Mission {
                x: x as int,
                y: y as int,
                description: description@,
            },
            Command::Quit => CommandView::Quit,
        }
    }
}

/// Why a line that is not blank is no command.
#[derive(Clone, Copy, Debug, PartialEq, Eq, Structural)]
pub enum Rejection {
    /// `GOTO` with a number of arguments other than two.
    GotoUsage,
    /// `MISSION` with fewer than three arguments.
    MissionUsage,
    /// A coordinate that is not an integer.
    InvalidCoordinates,
    /// A first word that is no command.
    UnknownCommand,
}

/// What a line of input amounts to.
#[derive(Clone, Debug, PartialEq, Eq)]
pub enum Line {
    /// No words at all.
    Blank,
    /// A well-formed command.
    Command(Command),
    /// Words that make no command.
    Rejected(Rejection),
}

/// Mathematical model of a [`Line`].
pub enum LineView {
    Blank,
    Command(CommandView),
    Rejected(Rejection),
}

impl View for Line {
    type V = LineView;

    open spec fn view(&self) -> LineView {
        match *self {
            Line::Blank => LineView::Blank,
            Line::Command(command) => LineView::Command(command@),
            Line::Rejected(rejection) => LineView::Rejected(rejection),
        }
    }
}

/// The two coordinates written by the words `x` and `y`, if both write a
/// 32-bit signed integer in decimal.
pub open spec fn coordinates(x: Seq<char>, y: Seq<char>) -> Option<(int, int)> {
    match (parse_decimal(x), parse_decimal(y)) {
        (Some(x), Some(y)) => Some((x, y)),
        _ => None,
    }
}

/// What the words `ws` of a line amount to, given the line's first word in
/// upper case as `verb`. Only the verb decides which command it is; the
/// commands without arguments ignore any further words.
pub open spec fn interpretation(verb: Seq<char>, ws: Seq<Seq<char>>) -> LineView {
    if verb == "FORWARD"@ {
        LineView::Command(CommandView::Forward)
    } else if verb == "LEFT"@ {
        LineView::Command(CommandView::Left)
    } else if verb == "RIGHT"@ {
        LineView::Command(CommandView::Right)
    } else if verb == "STATUS"@ {
        LineView::Command(CommandView::Status)
    } else if verb == "MAP"@ {
        LineView::Command(CommandView::ShowMap)
    } else if verb == "GOTO"@ {
        if ws.len() != 3 {
            LineView::Rejected(Rejection::GotoUsage)
        } else {
            match coordinates(ws[1], ws[2]) {
                Some((x, y)) => LineView::Command(CommandView::Goto { x, y }),
                None => LineView::Rejected(Rejection::InvalidCoordinates),
            }
        }
    } else if verb == "MISSION"@ {
        if ws.len() < 4 {
            LineView::Rejected(Rejection::MissionUsage)
        } else {
            match coordinates(ws[1], ws[2]) {
                Some((x, y)) => LineView::Command(
                    CommandView::Mission { x, y, description: join(ws.skip(3)) },
                ),
                None => LineView::Rejected(Rejection::InvalidCoordinates),
            }
        }
    } else if verb == "QUIT"@ {
        LineView::Command(CommandView::Quit)
    } else {
        LineView::Rejected(Rejection::UnknownCommand)
    }
}

/// The text that `str::to_uppercase` returns for the text `s`.
pub uninterp spec fn uppercase_of(s: Seq<char>) -> Seq<char>;

/// What the line `line` amounts to: nothing if it holds no word; otherwise
/// what its words amount to under the upper-case form of the first.
pub open spec fn reading(line: Seq<char>) -> LineView {
    let ws = words(line);
    if ws.len() == 0 {
        LineView::Blank
    } else {
        interpretation(uppercase_of(ws[0]), ws)
    }
}

/// Upper-case form of `s`, computed by `str::to_uppercase` of the standard
/// library. Nothing is proved of it: the contract only gives the result its
/// name, [`uppercase_of`], on the strength of the result depending on the
/// argument alone.
#[verifier::external_body]
fn uppercase(s: &str) -> (upper: String)
    ensures
        upper@ == uppercase_of(s@),
{
    s.to_uppercase()
}

/// Tests whether `a` and `b` hold the same text.
fn same_text(a: &str, b: &str) -> (same: bool)
    ensures
        same == (a@ == b@),
{
    String::from_str(a) == String::from_str(b)
}

/// Reads the words `x` and `y` as a pair of coordinates.
fn read_coordinates(x: &str, y: &str) -> (pair: Option<(i32, i32)>)
    ensures
        match pair {
            Some((px, py)) => coordinates(x@, y@) == Some((px as int, py as int)),
            None => coordinates(x@, y@) is None,
        },
{
    let x = parse_i32(x);
    let y = parse_i32(y);
    match (x, y) {
        (Some(x), Some(y)) => Some((x, y)),
        _ => None,
    }
}

/// Decides what the words `parts` of a line amount to, given the line's
/// first word in upper case as `verb`.
pub fn interpret(verb: &str, parts: &Vec<&str>) -> (line: Line)
    ensures
        line@ == interpretation(verb@, texts(parts@)),
{
    if same_text(verb, "FORWARD") {
        Line::Command(Command::Forward)
    } else if same_text(verb, "LEFT") {
        Line::Command(Command::Left)
    } else if same_text(verb, "RIGHT") {
        Line::Command(Command::Right)
    } else if same_text(verb, "STATUS") {
        Line::Command(Command::Status)
    } else if same_text(verb, "MAP") {
        Line::Command(Command::ShowMap)
    } else if same_text(verb, "GOTO") {
        if parts.len() != 3 {
            Line::Rejected(Rejection::GotoUsage)
        } else {
            match read_coordinates(parts[1], parts[2]) {
                Some((x, y)) => Line::Command(Command::Goto { x, y }),
                None => Line::Rejected(Rejection::InvalidCoordinates),
            }
        }
    } else if same_text(verb, "MISSION") {
        if parts.len() < 4 {
            Line::Rejected(Rejection::MissionUsage)
        } else {
            match read_coordinates(parts[1], parts[2]) {
                Some((x, y)) => Line::Command(
                    Command::Mission { x, y, description: join_words(parts, 3) },
                ),
                None => Line::Rejected(Rejection::InvalidCoordinates),
            }
        }
    } else if same_text(verb, "QUIT") {
        Line::Command(Command::Quit)
    } else {
        Line::Rejected(Rejection::UnknownCommand)
    }
}

/// Reads a line of input.
pub fn parse_line(line: &str) -> (parsed: Line)
    ensures
        parsed@ == reading(line@),
{
    let parts = split_words(line);
    if parts.len() == 0 {
        return Line::Blank;
    }
    let verb = uppercase(parts[0]);
    interpret(verb.as_str(), &parts)
}

} // verus!
