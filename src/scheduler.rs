//! The alarm scheduler: one one-shot alarm per direction, armed for the next
//! occurrence of that direction's schedule time.

use vstd::prelude::*;
use crate::blinds::{BlindsAction, BlindsActionCause, BlindsTime, Direction, Schedule, action_of};
use crate::time_of_day::{TimeOfDay, delay_secs, duration_until};
use crate::ui::{UIEvent, changed_event, schedule_changed};

verus! {

/// An instruction to (re)arm the alarm of `direction` to fire after `delay_secs` seconds,
/// replacing whatever alarm that direction had.
#[derive(Clone, Copy, Debug, PartialEq, Eq, Structural)]
pub struct Arm {
    pub direction: Direction,
    pub delay_secs: u64,
}

/// The alarms as armed: for each direction, the delay of its one pending alarm, if any.
#[derive(Clone, Copy, Debug, PartialEq, Eq, Structural)]
pub struct AlarmScheduler {
    pub up: Option<u64>,
    pub down: Option<u64>,
}

/// The arming instruction for the next occurrence of `target` in direction `d`.
pub open spec fn arm_for(d: Direction, now: TimeOfDay, target: TimeOfDay) -> Arm {
    Arm { direction: d, delay_secs: delay_secs(now, target) as u64 }
}

impl AlarmScheduler {
    /// The delay of the alarm pending for direction `d`.
    pub open spec fn pending_of(self, d: Direction) -> Option<u64> {
        match d {
            Direction::Up => self.up,
            Direction::Down => self.down,
        }
    }

    /// These alarms after arming direction `d` with `delay`.
    pub open spec fn armed(self, d: Direction, delay: u64) -> AlarmScheduler {
        match d {
            Direction::Up => AlarmScheduler { up: Some(delay), ..self },
            Direction::Down => AlarmScheduler { down: Some(delay), ..self },
        }
    }

    /// The alarms and the schedule after the request `req` is handled at time `now`.
    pub open spec fn handled(self, schedule: Schedule, req: BlindsTime, now: TimeOfDay) -> (
        AlarmScheduler,
        Schedule,
    ) {
        (
            self.armed(req.dir(), delay_secs(now, req.at()) as u64),
            schedule.with_time(req.dir(), req.at()),
        )
    }

    /// No alarm armed yet.
    pub fn new() -> (r: AlarmScheduler)
        ensures
            r.pending_of(Direction::Up) is None,
            r.pending_of(Direction::Down) is None,
    {
        AlarmScheduler { up: None, down: None }
    }

    /// The delay of the alarm pending for direction `d`.
    pub fn pending(&self, d: Direction) -> (r: Option<u64>)
        ensures
            r == self.pending_of(d),
    {
        match d {
            Direction::Up => self.up,
            Direction::Down => self.down,
        }
    }

    /// Arms direction `d` for the next occurrence of `target` after `now`,
    /// superseding any alarm that direction had.
    pub fn arm(&mut self, d: Direction, target: TimeOfDay, now: TimeOfDay) -> (r: Arm)
        requires
            now.wf(),
            target.wf(),
        ensures
            r == arm_for(d, now, target),
            0 < r.delay_secs <= crate::time_of_day::SECONDS_PER_DAY,
            *final(self) == old(self).armed(d, r.delay_secs),
    {
        let delay = duration_until(now, target);
        match d {
            Direction::Up => self.up = Some(delay),
            Direction::Down => self.down = Some(delay),
        }
        Arm { direction: d, delay_secs: delay }
    }

    /// Arms both directions from the schedule at start-up: up first, then down.
    pub fn start(&mut self, schedule: &Schedule, now: TimeOfDay) -> (r: (Arm, Arm))
        requires
            schedule.wf(),
            now.wf(),
        ensures
            r.0 == arm_for(Direction::Up, now, schedule.up),
            r.1 == arm_for(Direction::Down, now, schedule.down),
            *final(self) == old(self).armed(Direction::Up, r.0.delay_secs).armed(
                Direction::Down,
                r.1.delay_secs,
            ),
    {
        let up = self.arm(Direction::Up, schedule.up, now);
        let down = self.arm(Direction::Down, schedule.down, now);
        (up, down)
    }

    /// Handles a schedule update: records the new time in the store, announces the
    /// change, and rearms that direction's alarm from the new time.
    pub fn apply(&mut self, schedule: &mut Schedule, req: BlindsTime, now: TimeOfDay) -> (r: (
        UIEvent,
        Arm,
    ))
        requires
            old(schedule).wf(),
            req.at().wf(),
            now.wf(),
        ensures
            final(schedule).wf(),
            (*final(self), *final(schedule)) == old(self).handled(*old(schedule), req, now),
            r.0 == changed_event(req.dir()),
            r.1 == arm_for(req.dir(), now, req.at()),
    {
        let d = req.direction();
        let t = req.time();
        let event = schedule_changed(d);
        schedule.set_time(d, t);
        let arm = self.arm(d, t, now);
        (event, arm)
    }
}

/// The request an alarm of direction `d` emits when it fires.
pub fn timer_action(d: Direction) -> (r: BlindsAction)
    ensures
        r == action_of(d, BlindsActionCause::Timer),
{
    BlindsAction::new(d, BlindsActionCause::Timer)
}

/// Handling an update for a direction records its new time, rearms that direction
/// once with the delay to the next occurrence of the new time (the alarm pending
/// before is gone), and leaves the other direction's time and alarm as they were.
pub proof fn lemma_update_rearms(
    alarms: AlarmScheduler,
    schedule: Schedule,
    req: BlindsTime,
    now: TimeOfDay,
)
    requires
        schedule.wf(),
        req.at().wf(),
        now.wf(),
    ensures
        ({
            let (a, s) = alarms.handled(schedule, req, now);
            &&& s.wf()
            &&& s.time_of(req.dir()) == req.at()
            &&& a.pending_of(req.dir()) == Some(delay_secs(now, req.at()) as u64)
            &&& forall|e: Direction|
                e != req.dir() ==> #[trigger] s.time_of(e) == schedule.time_of(e)
                    && a.pending_of(e) == alarms.pending_of(e)
        }),
{
}

/// Of two updates for the same direction, the second wins entirely: the store and
/// the alarms end as if only the second had been handled.
pub proof fn lemma_second_update_wins(
    alarms: AlarmScheduler,
    schedule: Schedule,
    first: BlindsTime,
    second: BlindsTime,
    now1: TimeOfDay,
    now2: TimeOfDay,
)
    requires
        schedule.wf(),
        first.at().wf(),
        second.at().wf(),
        first.dir() == second.dir(),
        now1.wf(),
        now2.wf(),
    ensures
        ({
            let (a1, s1) = alarms.handled(schedule, first, now1);
            a1.handled(s1, second, now2) == alarms.handled(schedule, second, now2)
        }),
{
}

/// An alarm armed for `target` at `now` fires exactly at the next `target`:
/// `now` plus the delay is `target`, modulo a day.
pub proof fn lemma_delay_lands_on_target(now: TimeOfDay, target: TimeOfDay)
    requires
        now.wf(),
        target.wf(),
    ensures
        0 < delay_secs(now, target) <= crate::time_of_day::SECONDS_PER_DAY,
        (now.secs() + delay_secs(now, target)) % (crate::time_of_day::SECONDS_PER_DAY as int)
            == target.secs(),
{
    let t = target.secs();
    assert(0 <= t < 86400);
    assert(t % 86400 == t) by (nonlinear_arith)
        requires
            0 <= t < 86400,
    ;
    assert((t + 86400) % 86400 == t) by (nonlinear_arith)
        requires
            0 <= t < 86400,
    ;
}

} // verus!
