//! Events published for the display, and the movement status it shows.

use vstd::prelude::*;
use crate::blinds::Direction;

verus! {

/// A notification for the presentation layer.
#[derive(Clone, Copy, Debug, PartialEq, Eq, Structural)]
pub enum UIEvent {
    /// Movement upwards has started.
    MoveUp,
    /// Movement downwards has started.
    MoveDown,
    /// The current movement has finished.
    Stop,
    /// The up time of the schedule has changed.
    SetUp,
    /// The down time of the schedule has changed.
    SetDown,
}

pub open spec fn started_event(d: Direction) -> UIEvent {
    match d {
        Direction::Up => UIEvent::MoveUp,
        Direction::Down => UIEvent::MoveDown,
    }
}

pub open spec fn changed_event(d: Direction) -> UIEvent {
    match d {
        Direction::Up => UIEvent::SetUp,
        Direction::Down => UIEvent::SetDown,
    }
}

/// The movement status after `event`, given the status before it.
pub open spec fn status_after(current: Option<Direction>, event: UIEvent) -> Option<Direction> {
    match event {
        UIEvent::MoveUp => Some(Direction::Up),
        UIEvent::MoveDown => Some(Direction::Down),
        UIEvent::Stop => None,
        UIEvent::SetUp | UIEvent::SetDown => current,
    }
}

/// The event that announces a movement in direction `d`.
pub fn movement_started(d: Direction) -> (r: UIEvent)
    ensures
        r == started_event(d),
{
    match d {
        Direction::Up => UIEvent::MoveUp,
        Direction::Down => UIEvent::MoveDown,
    }
}

/// The event that announces a new schedule time for direction `d`.
pub fn schedule_changed(d: Direction) -> (r: UIEvent)
    ensures
        r == changed_event(d),
{
    match d {
        Direction::Up => UIEvent::SetUp,
        Direction::Down => UIEvent::SetDown,
    }
}

/// The direction the blinds are moving in after `event`, or `None` when they are at rest.
pub fn next_status(current: Option<Direction>, event: UIEvent) -> (r: Option<Direction>)
    ensures
        r == status_after(current, event),
{
    match event {
        UIEvent::MoveUp => Some(Direction::Up),
        UIEvent::MoveDown => Some(Direction::Down),
        UIEvent::Stop => None,
        UIEvent::SetUp | UIEvent::SetDown => current,
    }
}

/// The status line shown while the blinds move in direction `d`.
pub fn status_text(d: Direction) -> (r: &'static str)
    ensures
        d == Direction::Up ==> r@ == "Raising blinds..."@,
        d == Direction::Down ==> r@ == "Lowering blinds..."@,
{
    match d {
        Direction::Up => "Raising blinds...",
        Direction::Down => "Lowering blinds...",
    }
}

} // verus!
