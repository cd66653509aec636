//! The action coordinator: each movement request becomes a fixed sequence of
//! steps, which the caller performs in order before taking the next request.

use vstd::prelude::*;
use crate::blinds::{BlindsAction, BlindsActionCause, BlindsTime, Direction, Schedule, time_request_of};
use crate::ui::{UIEvent, movement_started, started_event};

verus! {

/// How long an output is held active to start a movement, in milliseconds.
pub const PULSE_MS: u64 = 200;

/// How long a full traversal of the blinds takes, in milliseconds.
pub const TRAVEL_MS: u64 = 5000;

/// One step of carrying out a movement.
#[derive(Clone, Copy, Debug, PartialEq, Eq, Structural)]
pub enum Effect {
    /// Publish an event to the display.
    Notify(UIEvent),
    /// Drive the output of a direction active (`true`) or idle (`false`).
    Drive(Direction, bool),
    /// Block for the given number of milliseconds.
    Pause(u64),
    /// Ask the scheduler to rearm a direction from the time on record for it.
    Rearm(Direction),
    /// Report that driving the output of a direction failed.
    ReportFault(Direction),
}

/// The rearm step of an action: one for a movement of the schedule, none for a manual one.
pub open spec fn rearm_steps(a: BlindsAction) -> Seq<Effect> {
    if a.reason() == BlindsActionCause::Timer {
        seq![Effect::Rearm(a.dir())]
    } else {
        Seq::empty()
    }
}

/// The steps that carry out action `a`: announce, pulse the output, rearm when the
/// schedule caused it, wait out the traversal, announce the stop.
pub open spec fn plan_of(a: BlindsAction) -> Seq<Effect> {
    seq![
        Effect::Notify(started_event(a.dir())),
        Effect::Drive(a.dir(), true),
        Effect::Pause(PULSE_MS),
        Effect::Drive(a.dir(), false),
    ] + rearm_steps(a) + seq![Effect::Pause(TRAVEL_MS), Effect::Notify(UIEvent::Stop)]
}

/// The steps that finish action `a` once driving its output has failed: report the
/// fault, still rearm when the schedule caused it, wait out a possible traversal,
/// and announce the stop so the display does not stay on a movement.
pub open spec fn recovery_of(a: BlindsAction) -> Seq<Effect> {
    seq![Effect::ReportFault(a.dir())] + rearm_steps(a) + seq![
        Effect::Pause(TRAVEL_MS),
        Effect::Notify(UIEvent::Stop),
    ]
}

/// The steps of a queue of actions, handled one after another in arrival order.
pub open spec fn plan_all(actions: Seq<BlindsAction>) -> Seq<Effect>
    decreases actions.len(),
{
    if actions.len() == 0 {
        Seq::empty()
    } else {
        plan_all(actions.drop_last()) + plan_of(actions.last())
    }
}

pub open spec fn is_start(e: Effect) -> bool {
    e == Effect::Notify(UIEvent::MoveUp) || e == Effect::Notify(UIEvent::MoveDown)
}

pub open spec fn is_stop(e: Effect) -> bool {
    e == Effect::Notify(UIEvent::Stop)
}

/// Between any two movement starts there is a stop.
pub open spec fn starts_separated(s: Seq<Effect>) -> bool {
    forall|i: int, j: int|
        0 <= i < j < s.len() && #[trigger] is_start(s[i]) && #[trigger] is_start(s[j]) ==> exists|
            k: int,
        |
            i < k < j && #[trigger] is_stop(s[k])
}

/// Every movement start is followed, later, by a stop.
pub open spec fn starts_closed(s: Seq<Effect>) -> bool {
    forall|i: int|
        0 <= i < s.len() && #[trigger] is_start(s[i]) ==> exists|k: int|
            i < k < s.len() && #[trigger] is_stop(s[k])
}

/// The number of rearm steps in `s`.
pub open spec fn rearm_count(s: Seq<Effect>) -> nat
    decreases s.len(),
{
    if s.len() == 0 {
        0
    } else {
        rearm_count(s.drop_last()) + if s.last() is Rearm {
            1nat
        } else {
            0nat
        }
    }
}

fn push_rearm(steps: &mut Vec<Effect>, a: &BlindsAction)
    ensures
        final(steps)@ == old(steps)@ + rearm_steps(*a),
{
    if let BlindsActionCause::Timer = a.cause() {
        steps.push(Effect::Rearm(a.direction()));
    }
    assert(final(steps)@ =~= old(steps)@ + rearm_steps(*a));
}

/// The steps that carry out action `a`.
pub fn plan_action(a: &BlindsAction) -> (r: Vec<Effect>)
    ensures
        r@ == plan_of(*a),
{
    let d = a.direction();
    let mut steps: Vec<Effect> = Vec::new();
    steps.push(Effect::Notify(movement_started(d)));
    steps.push(Effect::Drive(d, true));
    steps.push(Effect::Pause(PULSE_MS));
    steps.push(Effect::Drive(d, false));
    push_rearm(&mut steps, a);
    steps.push(Effect::Pause(TRAVEL_MS));
    steps.push(Effect::Notify(UIEvent::Stop));
    assert(steps@ =~= plan_of(*a));
    steps
}

/// The steps that finish action `a` after driving its output failed.
pub fn plan_after_fault(a: &BlindsAction) -> (r: Vec<Effect>)
    ensures
        r@ == recovery_of(*a),
{
    let mut steps: Vec<Effect> = Vec::new();
    steps.push(Effect::ReportFault(a.direction()));
    push_rearm(&mut steps, a);
    steps.push(Effect::Pause(TRAVEL_MS));
    steps.push(Effect::Notify(UIEvent::Stop));
    assert(steps@ =~= recovery_of(*a));
    steps
}

/// The schedule update that a rearm step of direction `d` sends: the time on record
/// for `d` at the moment the step is performed.
pub fn rearm_request(d: Direction, schedule: &Schedule) -> (r: BlindsTime)
    ensures
        r == time_request_of(d, schedule.time_of(d)),
{
    BlindsTime::new(d, schedule.time_for(d))
}

proof fn lemma_rearm_count_add(a: Seq<Effect>, b: Seq<Effect>)
    ensures
        rearm_count(a + b) == rearm_count(a) + rearm_count(b),
    decreases b.len(),
{
    if b.len() == 0 {
        assert(a + b =~= a);
    } else {
        assert((a + b).drop_last() =~= a + b.drop_last());
        lemma_rearm_count_add(a, b.drop_last());
    }
}

proof fn lemma_rearm_count_none(s: Seq<Effect>)
    requires
        forall|i: int| 0 <= i < s.len() ==> !(#[trigger] s[i] is Rearm),
    ensures
        rearm_count(s) == 0,
    decreases s.len(),
{
    if s.len() > 0 {
        lemma_rearm_count_none(s.drop_last());
    }
}

proof fn lemma_rearm_steps_count(a: BlindsAction)
    ensures
        rearm_count(rearm_steps(a)) == if a.reason() == BlindsActionCause::Timer {
            1nat
        } else {
            0nat
        },
{
    let r = rearm_steps(a);
    if a.reason() == BlindsActionCause::Timer {
        assert(r.drop_last() =~= Seq::<Effect>::empty());
    }
    reveal_with_fuel(rearm_count, 2);
}

/// Every action asks for a rearm exactly once when the schedule caused it and never
/// when an operator did, whether its output could be driven or not; the rearm names
/// the action's own direction and comes after the step that ends the pulse.
pub proof fn lemma_rearm_once(a: BlindsAction)
    ensures
        rearm_count(plan_of(a)) == if a.reason() == BlindsActionCause::Timer {
            1nat
        } else {
            0nat
        },
        rearm_count(recovery_of(a)) == rearm_count(plan_of(a)),
        forall|i: int, j: int|
            0 <= i < plan_of(a).len() && 0 <= j < plan_of(a).len() && #[trigger] plan_of(a)[i]
                is Rearm && #[trigger] plan_of(a)[j] == Effect::Drive(a.dir(), false) ==> j < i
                && plan_of(a)[i] == Effect::Rearm(a.dir()),
{
    let head = seq![
        Effect::Notify(started_event(a.dir())),
        Effect::Drive(a.dir(), true),
        Effect::Pause(PULSE_MS),
        Effect::Drive(a.dir(), false),
    ];
    let tail = seq![Effect::Pause(TRAVEL_MS), Effect::Notify(UIEvent::Stop)];
    let fault = seq![Effect::ReportFault(a.dir())];
    let r = rearm_steps(a);
    lemma_rearm_count_none(head);
    lemma_rearm_count_none(tail);
    lemma_rearm_count_none(fault);
    lemma_rearm_steps_count(a);
    lemma_rearm_count_add(head, r);
    lemma_rearm_count_add(head + r, tail);
    lemma_rearm_count_add(fault, r);
    lemma_rearm_count_add(fault + r, tail);
    let p = plan_of(a);
    assert forall|i: int, j: int|
        0 <= i < p.len() && 0 <= j < p.len() && #[trigger] p[i] is Rearm && #[trigger] p[j]
            == Effect::Drive(a.dir(), false) implies j < i && p[i] == Effect::Rearm(a.dir()) by {
        assert(i == 4 && r.len() == 1);
        assert(j == 3);
    }
}

proof fn lemma_plan_shape(a: BlindsAction)
    ensures
        plan_of(a).len() >= 2,
        is_start(plan_of(a)[0]),
        is_stop(plan_of(a)[plan_of(a).len() - 1]),
        forall|i: int| 0 < i < plan_of(a).len() ==> !is_start(#[trigger] plan_of(a)[i]),
        forall|i: int| 0 <= i < plan_of(a).len() - 1 ==> !is_stop(#[trigger] plan_of(a)[i]),
{
    let p = plan_of(a);
    assert forall|i: int| 0 < i < p.len() implies !is_start(#[trigger] p[i]) by {
        if i >= 4 && rearm_steps(a).len() == 1 && i == 4 {
            assert(p[i] is Rearm);
        }
    }
}

proof fn lemma_concat_separated(p: Seq<Effect>, q: Seq<Effect>)
    requires
        starts_separated(p),
        starts_closed(p),
        starts_separated(q),
        starts_closed(q),
    ensures
        starts_separated(p + q),
        starts_closed(p + q),
{
    let s = p + q;
    assert forall|i: int, j: int|
        0 <= i < j < s.len() && #[trigger] is_start(s[i]) && #[trigger] is_start(
            s[j],
        ) implies exists|k: int| i < k < j && #[trigger] is_stop(s[k]) by {
        if j < p.len() {
            assert(is_start(p[i]) && is_start(p[j]));
            let k = choose|k: int| i < k < j && #[trigger] is_stop(p[k]);
            assert(is_stop(s[k]));
        } else if i >= p.len() {
            assert(is_start(q[i - p.len()]) && is_start(q[j - p.len()]));
            let k = choose|k: int| i - p.len() < k < j - p.len() && #[trigger] is_stop(q[k]);
            assert(is_stop(s[k + p.len()]));
        } else {
            assert(is_start(p[i]));
            let k = choose|k: int| i < k < p.len() && #[trigger] is_stop(p[k]);
            assert(is_stop(s[k]));
        }
    }
    assert forall|i: int| 0 <= i < s.len() && #[trigger] is_start(s[i]) implies exists|k: int|
        i < k < s.len() && #[trigger] is_stop(s[k]) by {
        if i < p.len() {
            assert(is_start(p[i]));
            let k = choose|k: int| i < k < p.len() && #[trigger] is_stop(p[k]);
            assert(is_stop(s[k]));
        } else {
            assert(is_start(q[i - p.len()]));
            let k = choose|k: int| i - p.len() < k < q.len() && #[trigger] is_stop(q[k]);
            assert(is_stop(s[k + p.len()]));
        }
    }
}

/// Actions are carried out one at a time: in the steps of any queue of actions, no
/// movement starts before the one started ahead of it has been announced as stopped,
/// and every movement that starts is announced as stopped.
pub proof fn lemma_actions_serialized(actions: Seq<BlindsAction>)
    ensures
        starts_separated(plan_all(actions)),
        starts_closed(plan_all(actions)),
    decreases actions.len(),
{
    if actions.len() > 0 {
        lemma_actions_serialized(actions.drop_last());
        let q = plan_of(actions.last());
        lemma_plan_shape(actions.last());
        assert forall|i: int| 0 <= i < q.len() && #[trigger] is_start(q[i]) implies exists|k: int|
            i < k < q.len() && #[trigger] is_stop(q[k]) by {
            assert(is_stop(q[q.len() - 1]));
        }
        lemma_concat_separated(plan_all(actions.drop_last()), q);
    }
}

} // verus!
