use blinds::blinds::{BlindsAction, BlindsActionCause, Direction, Schedule};
use blinds::coordinator::{plan_action, plan_after_fault, rearm_request, Effect, PULSE_MS, TRAVEL_MS};
use blinds::time_of_day::TimeOfDay;
use blinds::blinds::BlindsTime;
use blinds::ui::{movement_started, next_status, schedule_changed, status_text, UIEvent};

fn is_start(e: &Effect) -> bool {
    matches!(e, Effect::Notify(UIEvent::MoveUp) | Effect::Notify(UIEvent::MoveDown))
}

fn is_stop(e: &Effect) -> bool {
    *e == Effect::Notify(UIEvent::Stop)
}

#[test]
fn timer_up_plan() {
    let plan = plan_action(&BlindsAction::MoveUp(BlindsActionCause::Timer));
    assert_eq!(
        plan,
        vec![
            Effect::Notify(UIEvent::MoveUp),
            Effect::Drive(Direction::Up, true),
            Effect::Pause(PULSE_MS),
            Effect::Drive(Direction::Up, false),
            Effect::Rearm(Direction::Up),
            Effect::Pause(TRAVEL_MS),
            Effect::Notify(UIEvent::Stop),
        ]
    );
    assert_eq!(PULSE_MS, 200);
    assert_eq!(TRAVEL_MS, 5000);
}

#[test]
fn manual_down_plan_has_no_rearm() {
    let plan = plan_action(&BlindsAction::MoveDown(BlindsActionCause::Manual));
    assert_eq!(
        plan,
        vec![
            Effect::Notify(UIEvent::MoveDown),
            Effect::Drive(Direction::Down, true),
            Effect::Pause(PULSE_MS),
            Effect::Drive(Direction::Down, false),
            Effect::Pause(TRAVEL_MS),
            Effect::Notify(UIEvent::Stop),
        ]
    );
}

#[test]
fn timer_plan_rearms_once_after_pulse() {
    for d in [Direction::Up, Direction::Down] {
        let plan = plan_action(&BlindsAction::new(d, BlindsActionCause::Timer));
        let rearms: Vec<usize> = (0..plan.len()).filter(|&i| matches!(plan[i], Effect::Rearm(_))).collect();
        assert_eq!(rearms.len(), 1);
        assert_eq!(plan[rearms[0]], Effect::Rearm(d));
        let pulse_end = plan.iter().position(|e| *e == Effect::Drive(d, false)).unwrap();
        assert!(pulse_end < rearms[0]);
    }
}

#[test]
fn fault_recovery_still_rearms_and_stops() {
    let plan = plan_after_fault(&BlindsAction::MoveUp(BlindsActionCause::Timer));
    assert_eq!(
        plan,
        vec![
            Effect::ReportFault(Direction::Up),
            Effect::Rearm(Direction::Up),
            Effect::Pause(TRAVEL_MS),
            Effect::Notify(UIEvent::Stop),
        ]
    );
    let plan = plan_after_fault(&BlindsAction::MoveDown(BlindsActionCause::Manual));
    assert_eq!(
        plan,
        vec![Effect::ReportFault(Direction::Down), Effect::Pause(TRAVEL_MS), Effect::Notify(UIEvent::Stop)]
    );
}

#[test]
fn manual_triggers_are_serialized() {
    let n = 5;
    let mut steps = Vec::new();
    for _ in 0..n {
        steps.extend(plan_action(&BlindsAction::MoveUp(BlindsActionCause::Manual)));
    }
    let starts: Vec<usize> = (0..steps.len()).filter(|&i| is_start(&steps[i])).collect();
    let stops: Vec<usize> = (0..steps.len()).filter(|&i| is_stop(&steps[i])).collect();
    assert_eq!(starts.len(), n);
    assert_eq!(stops.len(), n);
    for k in 1..n {
        assert!(stops[k - 1] < starts[k]);
    }
    assert!(!steps.iter().any(|e| matches!(e, Effect::Rearm(_))));
}

#[test]
fn end_to_end_manual_down_waits_for_timer_up() {
    let mut steps = plan_action(&BlindsAction::MoveUp(BlindsActionCause::Timer));
    let up_len = steps.len();
    steps.extend(plan_action(&BlindsAction::MoveDown(BlindsActionCause::Manual)));
    let up_stop = steps.iter().position(is_stop).unwrap();
    let down_start = steps.iter().position(|e| *e == Effect::Notify(UIEvent::MoveDown)).unwrap();
    assert_eq!(up_stop, up_len - 1);
    assert!(up_stop < down_start);
    let travel = steps.iter().position(|e| *e == Effect::Pause(TRAVEL_MS)).unwrap();
    assert!(travel < up_stop);
}

#[test]
fn rearm_request_uses_time_on_record() {
    let mut schedule = Schedule::new();
    schedule.set_time(Direction::Up, TimeOfDay::from_hms(6, 45, 0).unwrap());
    assert_eq!(
        rearm_request(Direction::Up, &schedule),
        BlindsTime::SetUp(TimeOfDay::from_hms(6, 45, 0).unwrap())
    );
    assert_eq!(
        rearm_request(Direction::Down, &schedule),
        BlindsTime::SetDown(TimeOfDay::from_hms(18, 0, 0).unwrap())
    );
}

#[test]
fn ui_events_and_status() {
    assert_eq!(movement_started(Direction::Up), UIEvent::MoveUp);
    assert_eq!(movement_started(Direction::Down), UIEvent::MoveDown);
    assert_eq!(schedule_changed(Direction::Up), UIEvent::SetUp);
    assert_eq!(schedule_changed(Direction::Down), UIEvent::SetDown);
    assert_eq!(next_status(None, UIEvent::MoveUp), Some(Direction::Up));
    assert_eq!(next_status(Some(Direction::Up), UIEvent::MoveDown), Some(Direction::Down));
    assert_eq!(next_status(Some(Direction::Down), UIEvent::Stop), None);
    assert_eq!(next_status(Some(Direction::Down), UIEvent::SetUp), Some(Direction::Down));
    assert_eq!(next_status(None, UIEvent::SetDown), None);
    assert_eq!(status_text(Direction::Up), "Raising blinds...");
    assert_eq!(status_text(Direction::Down), "Lowering blinds...");
}
