use stellavue::stepper::rotation_state::{RotationConfigData, RotationState, MAX_ROTATIONS, STEPS_PER_ROTATION};
use stellavue::stepper::{count_step, StepOutcome, StepperAction, StepperControl, StepperDirection};
use stellavue::system::system_event::SystemEvent;

fn profile() -> [RotationConfigData; 9] {
    let mut points = [RotationConfigData { rotations: 0, offset_steps: 0, steps_per_second: 10 }; 9];
    for (i, p) in points.iter_mut().enumerate() {
        p.rotations = i as u16;
        p.offset_steps = 100 * i as u16;
        p.steps_per_second = 10 * (i as u16 + 1);
    }
    points
}

/// Moves the counted position up by `steps` without any events.
fn advance(state: &mut RotationState, steps: u32) {
    for _ in 0..steps {
        state.increment_step();
    }
}

#[test]
fn new_control() {
    let control = StepperControl::new(profile());
    assert!(!control.tracking);
    assert!(!control.calibrating);
    assert_eq!(control.direction, StepperDirection::UP);
    assert_eq!(control.rotation_state.get_rotation(), (0, 0));
}

#[test]
fn move_constant_without_running_timer() {
    let mut control = StepperControl::new(profile());
    let actions = control.move_constant(StepperDirection::DOWN, 640, false);
    assert_eq!(
        actions,
        vec![
            StepperAction::Post(SystemEvent::MovementStarted(0, 640)),
            StepperAction::SetDirectionPin(StepperDirection::DOWN),
            StepperAction::StartTimer,
        ]
    );
    assert_eq!(control.direction, StepperDirection::DOWN);
    assert_eq!(control.rotation_state.steps_per_second(), 640);
}

#[test]
fn move_constant_replaces_running_movement() {
    let mut control = StepperControl::new(profile());
    control.tracking = true;
    let actions = control.move_constant(StepperDirection::UP, 3200, true);
    assert_eq!(
        actions,
        vec![
            StepperAction::Post(SystemEvent::MovementStarted(1, 3200)),
            StepperAction::StopTimer,
            StepperAction::SetDirectionPin(StepperDirection::UP),
            StepperAction::StartTimer,
        ]
    );
    assert!(!control.tracking);
}

#[test]
fn speed_zero_is_a_movement_without_steps() {
    let mut control = StepperControl::new(profile());
    control.move_constant(StepperDirection::UP, 3200, false);
    let actions = control.move_constant(StepperDirection::DOWN, 0, true);
    assert_eq!(
        actions,
        vec![
            StepperAction::Post(SystemEvent::MovementStarted(0, 0)),
            StepperAction::StopTimer,
            StepperAction::SetDirectionPin(StepperDirection::DOWN),
            StepperAction::StartTimer,
        ]
    );
    assert_eq!(control.direction, StepperDirection::DOWN);
    assert_eq!(control.rotation_state.steps_per_second(), 0);
}

#[test]
fn tracking_on_and_off() {
    let mut control = StepperControl::new(profile());
    let actions = control.set_tracking(true, false);
    assert_eq!(
        actions,
        vec![
            StepperAction::Post(SystemEvent::TrackingStart),
            StepperAction::SetDirectionPin(StepperDirection::UP),
            StepperAction::StartTimer,
        ]
    );
    assert!(control.tracking);
    assert_eq!(control.rotation_state.steps_per_second(), 10);
    let actions = control.set_tracking(false, true);
    assert_eq!(actions, vec![StepperAction::Post(SystemEvent::MovementStop), StepperAction::StopTimer]);
    assert!(!control.tracking);
}

#[test]
fn stop_without_running_timer_keeps_tracking_flag() {
    let mut control = StepperControl::new(profile());
    control.tracking = true;
    assert_eq!(control.stop_movement(false, false), vec![]);
    assert!(control.tracking);
    assert_eq!(control.stop_movement(true, false), vec![StepperAction::Post(SystemEvent::MovementStop)]);
}

#[test]
fn calibration_cycle() {
    let mut control = StepperControl::new(profile());
    advance(&mut control.rotation_state, 42 * STEPS_PER_ROTATION as u32);
    let actions = control.start_calibration(true);
    assert_eq!(
        actions,
        vec![
            StepperAction::Post(SystemEvent::CalibrationStarted),
            StepperAction::Post(SystemEvent::MovementStarted(0, STEPS_PER_ROTATION)),
            StepperAction::StopTimer,
            StepperAction::SetDirectionPin(StepperDirection::DOWN),
            StepperAction::StartTimer,
        ]
    );
    assert!(control.calibrating);
    assert_eq!(control.rotation_state.steps_per_second(), STEPS_PER_ROTATION);
    // steps are not counted while calibrating
    assert_eq!(control.step(), vec![]);
    assert_eq!(control.rotation_state.get_rotation(), (42, 0));
    let actions = control.end_calibration(true);
    assert_eq!(actions, vec![StepperAction::Post(SystemEvent::MovementStop), StepperAction::StopTimer]);
    assert!(!control.calibrating);
    assert_eq!(control.rotation_state.get_rotation(), (0, 0));
    assert_eq!(control.rotation_state.steps_per_second(), 0);
}

#[test]
fn steps_without_tracking_post_turns_only() {
    let mut control = StepperControl::new(profile());
    assert_eq!(control.step(), vec![]);
    assert_eq!(control.rotation_state.get_rotation(), (0, 1));
    advance(&mut control.rotation_state, STEPS_PER_ROTATION as u32 - 2);
    assert_eq!(control.step(), vec![StepperAction::Post(SystemEvent::RotationComplete(1))]);
    assert_eq!(control.rotation_state.get_rotation(), (1, 0));
}

#[test]
fn steps_while_tracking_post_position_and_follow_profile() {
    let mut control = StepperControl::new(profile());
    control.start_tracking(false);
    assert_eq!(control.rotation_state.steps_per_second(), 10);
    // the second point of the profile is (1, 100)
    advance(&mut control.rotation_state, 99);
    assert_eq!(control.step(), vec![StepperAction::Post(SystemEvent::StepComplete(0, 100))]);
    assert_eq!(control.rotation_state.steps_per_second(), 10);
    advance(&mut control.rotation_state, STEPS_PER_ROTATION as u32 - 1);
    assert_eq!(control.step(), vec![StepperAction::Post(SystemEvent::StepComplete(1, 100))]);
    assert_eq!(control.rotation_state.steps_per_second(), 20);
    advance(&mut control.rotation_state, STEPS_PER_ROTATION as u32 - 101);
    assert_eq!(control.rotation_state.get_rotation(), (1, STEPS_PER_ROTATION - 1));
    assert_eq!(
        control.step(),
        vec![
            StepperAction::Post(SystemEvent::RotationComplete(2)),
            StepperAction::Post(SystemEvent::StepComplete(2, 0)),
        ]
    );
}

#[test]
fn top_of_travel_stops_tracking() {
    let mut control = StepperControl::new(profile());
    control.start_tracking(false);
    advance(&mut control.rotation_state, MAX_ROTATIONS as u32 * STEPS_PER_ROTATION as u32 - 1);
    assert_eq!(control.rotation_state.get_rotation(), (MAX_ROTATIONS - 1, STEPS_PER_ROTATION - 1));
    assert_eq!(control.step(), vec![StepperAction::Post(SystemEvent::MovementStop), StepperAction::StopTimer]);
    assert!(!control.tracking);
    assert_eq!(control.rotation_state.get_rotation(), (MAX_ROTATIONS, 0));
}

#[test]
fn bottom_of_travel_stops_movement() {
    let mut control = StepperControl::new(profile());
    control.move_constant(StepperDirection::DOWN, 100, false);
    advance(&mut control.rotation_state, 1);
    assert!(control.step_countable());
    assert_eq!(control.step(), vec![StepperAction::Post(SystemEvent::MovementStop), StepperAction::StopTimer]);
    assert_eq!(control.rotation_state.get_rotation(), (0, 0));
    // a further step down cannot be counted
    assert!(!control.step_countable());
}

#[test]
fn count_step_outcomes() {
    let mut state = RotationState::new(profile());
    assert_eq!(count_step(&mut state, StepperDirection::UP, true, false), StepOutcome::NotCounted);
    assert_eq!(state.get_rotation(), (0, 0));
    assert_eq!(
        count_step(&mut state, StepperDirection::UP, false, true),
        StepOutcome::Counted { rotation_event: None, step_event: Some(SystemEvent::StepComplete(0, 1)) }
    );
    assert_eq!(count_step(&mut state, StepperDirection::DOWN, false, false), StepOutcome::LimitReached);
    advance(&mut state, 2 * STEPS_PER_ROTATION as u32);
    assert_eq!(
        count_step(&mut state, StepperDirection::DOWN, false, false),
        StepOutcome::Counted { rotation_event: Some(SystemEvent::RotationComplete(1)), step_event: None }
    );
    assert_eq!(state.get_rotation(), (1, STEPS_PER_ROTATION - 1));
}
