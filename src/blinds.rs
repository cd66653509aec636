//! The request vocabulary of the core and the schedule store.

use vstd::prelude::*;
use crate::time_of_day::TimeOfDay;

verus! {

/// The two directions the blinds move in.
#[derive(Clone, Copy, Debug, PartialEq, Eq, Structural)]
pub enum Direction {
    Up,
    Down,
}

/// Who asked for a movement: an operator, or the daily schedule.
/// Only movements of the schedule arm the next day's alarm.
#[derive(Clone, Copy, Debug, PartialEq, Eq, Structural)]
pub enum BlindsActionCause {
    Manual,
    Timer,
}

/// A request to move the blinds.
#[derive(Clone, Copy, Debug, PartialEq, Eq, Structural)]
pub enum BlindsAction {
    MoveUp(BlindsActionCause),
    MoveDown(BlindsActionCause),
}

/// A request to change the schedule time of one direction.
#[derive(Clone, Copy, Debug, PartialEq, Eq, Structural)]
pub enum BlindsTime {
    SetUp(TimeOfDay),
    SetDown(TimeOfDay),
}

pub open spec fn action_of(d: Direction, cause: BlindsActionCause) -> BlindsAction {
    match d {
        Direction::Up => BlindsAction::MoveUp(cause),
        Direction::Down => BlindsAction::MoveDown(cause),
    }
}

pub open spec fn time_request_of(d: Direction, t: TimeOfDay) -> BlindsTime {
    match d {
        Direction::Up => BlindsTime::SetUp(t),
        Direction::Down => BlindsTime::SetDown(t),
    }
}

impl BlindsAction {
    pub open spec fn dir(self) -> Direction {
        match self {
            BlindsAction::MoveUp(_) => Direction::Up,
            BlindsAction::MoveDown(_) => Direction::Down,
        }
    }

    pub open spec fn reason(self) -> BlindsActionCause {
        match self {
            BlindsAction::MoveUp(c) => c,
            BlindsAction::MoveDown(c) => c,
        }
    }

    /// The request to move in direction `d`, for `cause`.
    pub fn new(d: Direction, cause: BlindsActionCause) -> (r: BlindsAction)
        ensures
            r == action_of(d, cause),
            r.dir() == d,
            r.reason() == cause,
    {
        match d {
            Direction::Up => BlindsAction::MoveUp(cause),
            Direction::Down => BlindsAction::MoveDown(cause),
        }
    }

    pub fn direction(&self) -> (r: Direction)
        ensures
            r == self.dir(),
    {
        match self {
            BlindsAction::MoveUp(_) => Direction::Up,
            BlindsAction::MoveDown(_) => Direction::Down,
        }
    }

    pub fn cause(&self) -> (r: BlindsActionCause)
        ensures
            r == self.reason(),
    {
        match self {
            BlindsAction::MoveUp(c) => *c,
            BlindsAction::MoveDown(c) => *c,
        }
    }
}

impl BlindsTime {
    pub open spec fn dir(self) -> Direction {
        match self {
            BlindsTime::SetUp(_) => Direction::Up,
            BlindsTime::SetDown(_) => Direction::Down,
        }
    }

    pub open spec fn at(self) -> TimeOfDay {
        match self {
            BlindsTime::SetUp(t) => t,
            BlindsTime::SetDown(t) => t,
        }
    }

    /// The request to set the time of direction `d` to `t`.
    pub fn new(d: Direction, t: TimeOfDay) -> (r: BlindsTime)
        ensures
            r == time_request_of(d, t),
            r.dir() == d,
            r.at() == t,
    {
        match d {
            Direction::Up => BlindsTime::SetUp(t),
            Direction::Down => BlindsTime::SetDown(t),
        }
    }

    pub fn direction(&self) -> (r: Direction)
        ensures
            r == self.dir(),
    {
        match self {
            BlindsTime::SetUp(_) => Direction::Up,
            BlindsTime::SetDown(_) => Direction::Down,
        }
    }

    pub fn time(&self) -> (r: TimeOfDay)
        ensures
            r == self.at(),
    {
        match self {
            BlindsTime::SetUp(t) => *t,
            BlindsTime::SetDown(t) => *t,
        }
    }
}

/// The schedule store: one time of day per direction, never unset.
#[derive(Clone, Copy, Debug, PartialEq, Eq, Structural)]
pub struct Schedule {
    pub up: TimeOfDay,
    pub down: TimeOfDay,
}

impl Schedule {
    pub open spec fn wf(self) -> bool {
        self.up.wf() && self.down.wf()
    }

    /// The time on record for direction `d`.
    pub open spec fn time_of(self, d: Direction) -> TimeOfDay {
        match d {
            Direction::Up => self.up,
            Direction::Down => self.down,
        }
    }

    /// This schedule with `t` recorded for direction `d`.
    pub open spec fn with_time(self, d: Direction, t: TimeOfDay) -> Schedule {
        match d {
            Direction::Up => Schedule { up: t, ..self },
            Direction::Down => Schedule { down: t, ..self },
        }
    }

    /// The schedule at start-up: up at 07:00, down at 18:00.
    pub fn new() -> (r: Schedule)
        ensures
            r.wf(),
            r.up == (TimeOfDay { hour: 7, minute: 0, second: 0 }),
            r.down == (TimeOfDay { hour: 18, minute: 0, second: 0 }),
    {
        Schedule {
            up: TimeOfDay { hour: 7, minute: 0, second: 0 },
            down: TimeOfDay { hour: 18, minute: 0, second: 0 },
        }
    }

    /// The time on record for direction `d`.
    pub fn time_for(&self, d: Direction) -> (r: TimeOfDay)
        ensures
            r == self.time_of(d),
    {
        match d {
            Direction::Up => self.up,
            Direction::Down => self.down,
        }
    }

    /// Records `t` as the time of direction `d`; the other direction keeps its time.
    pub fn set_time(&mut self, d: Direction, t: TimeOfDay)
        requires
            old(self).wf(),
            t.wf(),
        ensures
            *final(self) == old(self).with_time(d, t),
            final(self).wf(),
            final(self).time_of(d) == t,
            forall|e: Direction| e != d ==> final(self).time_of(e) == old(self).time_of(e),
    {
        match d {
            Direction::Up => self.up = t,
            Direction::Down => self.down = t,
        }
    }
}

} // verus!
