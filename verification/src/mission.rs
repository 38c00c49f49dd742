//! The single objective a robot may carry.

use vstd::prelude::*;

verus! {

/// An objective: a cell to reach, a free-text description and whether the
/// cell has been reached since the objective was set.
#[derive(Clone, Debug, PartialEq, Eq)]
pub struct Mission {
    pub target_x: i32,
    pub target_y: i32,
    pub description: String,
    pub completed: bool,
}

/// Mathematical model of a [`Mission`].
pub struct MissionView {
    pub target_x: int,
    pub target_y: int,
    pub description: Seq<char>,
    pub completed: bool,
}

impl View for Mission {
    type V = MissionView;

    open spec fn view(&self) -> MissionView {
        MissionView {
            target_x: self.target_x as int,
            target_y: self.target_y as int,
            description: self.description@,
            completed: self.completed,
        }
    }
}

impl MissionView {
    /// Whether the objective's cell is `(x, y)`.
    pub open spec fn is_at(self, x: int, y: int) -> bool {
        self.target_x == x && self.target_y == y
    }

    /// The same objective, marked as reached.
    pub open spec fn complete(self) -> MissionView {
        MissionView { completed: true, ..self }
    }
}

/// The objective slot after the robot has come to rest on `(x, y)`: an
/// objective for that very cell is marked as reached, anything else is left
/// as it was.
pub open spec fn mission_on_arrival(mission: Option<MissionView>, x: int, y: int) -> Option<
    MissionView,
> {
    match mission {
        Some(m) if m.is_at(x, y) => Some(m.complete()),
        _ => mission,
    }
}

/// Model of an optional objective.
pub open spec fn mission_view(mission: Option<Mission>) -> Option<MissionView> {
    match mission {
        Some(m) => Some(m@),
        None => None,
    }
}

/// Records that the robot has come to rest on `(x, y)`: marks an objective
/// for that cell as reached and returns its description; leaves anything
/// else as it was and returns nothing.
pub fn arrive(mission: &mut Option<Mission>, x: i32, y: i32) -> (reached: Option<String>)
    ensures
        mission_view(*final(mission)) == mission_on_arrival(
            mission_view(*old(mission)),
            x as int,
            y as int,
        ),
        match mission_view(*old(mission)) {
            Some(m) if m.is_at(x as int, y as int) => reached is Some && reached->0@
                == m.description,
            _ => reached is None,
        },
{
    match mission {
        Some(m) => {
            if m.target_x == x && m.target_y == y {
                m.completed = true;
                Some(m.description.clone())
            } else {
                None
            }
        },
        None => None,
    }
}

} // verus!
